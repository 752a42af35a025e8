//! The grammar, written denotationally.
//!
//! Each spec function maps an input and a position to the position after
//! one parse of its production together with the tree it denotes, or to a
//! failure. Ordered choice is literal: alternatives are tried in sequence,
//! and a failing alternative consumes nothing, so the next one sees the
//! original position. The executable parser is proved equal to these
//! functions.
//!
//! Precedence, low to high: additive, multiplicative, exponent (right
//! associative), unary prefix, primary. Additive and multiplicative chains
//! fold to the left. Comparisons and logical chains form a separate
//! entry, the conditional expression, which requires exactly one comparison
//! per operand of the logical operators.
//!
//! A statement-level production can fail in two ways: an ordinary mismatch,
//! after which the next alternative is tried, or a fatal fault for a token
//! that matched a fixed-vocabulary character class without matching any
//! recognized spelling (an unknown type keyword or operator spelling).

use vstd::prelude::*;

use crate::ast::{
    AssignmentOpKind, AstView, ComparisonOpKind, ExprOpKind, LogicalOpKind, UnaryOpKind, ValueType,
};
use crate::value::Value;

verus! {

/// The result of one statement-level parse: success, an ordinary mismatch
/// that a caller may backtrack from, or a fatal fault carrying the
/// offending word.
pub enum StRes {
    Parsed(int, AstView),
    Fail,
    Fatal(Seq<char>),
}

/// The result of parsing a whole program: the trees of its statements, or
/// the position of the remainder no alternative matched, or a fatal fault.
pub enum ProgRes {
    Parsed(Seq<AstView>),
    Syntax(int),
    Fatal(Seq<char>),
}

/// Insignificant whitespace.
pub open spec fn is_ws(c: char) -> bool {
    c == ' ' || c == '\t' || c == '\r' || c == '\n'
}

/// A decimal digit.
pub open spec fn is_digit(c: char) -> bool {
    '0' <= c && c <= '9'
}

/// A character of an identifier: a letter, a digit or an underscore.
pub open spec fn is_ident(c: char) -> bool {
    ('a' <= c && c <= 'z') || ('A' <= c && c <= 'Z') || is_digit(c) || c == '_'
}

/// A letter or a digit; the characters of a type keyword.
pub open spec fn is_alnum(c: char) -> bool {
    ('a' <= c && c <= 'z') || ('A' <= c && c <= 'Z') || is_digit(c)
}

/// A character of an assignment-operator run.
pub open spec fn is_assign_char(c: char) -> bool {
    c == '=' || c == '+' || c == '-' || c == '*' || c == '/'
}

/// A character of a comparison-operator run.
pub open spec fn is_cmp_char(c: char) -> bool {
    c == '=' || c == '>' || c == '<' || c == '!'
}

/// A character of a logical-operator run.
pub open spec fn is_logic_char(c: char) -> bool {
    c == '&' || c == '|'
}

/// The digit character class, as a function value for `scan_end`.
pub open spec fn digit_cls() -> spec_fn(char) -> bool {
    |c: char| is_digit(c)
}

/// The identifier character class.
pub open spec fn ident_cls() -> spec_fn(char) -> bool {
    |c: char| is_ident(c)
}

/// The letter-or-digit character class.
pub open spec fn alnum_cls() -> spec_fn(char) -> bool {
    |c: char| is_alnum(c)
}

/// The assignment-operator character class.
pub open spec fn assign_cls() -> spec_fn(char) -> bool {
    |c: char| is_assign_char(c)
}

/// The comparison-operator character class.
pub open spec fn cmp_cls() -> spec_fn(char) -> bool {
    |c: char| is_cmp_char(c)
}

/// The logical-operator character class.
pub open spec fn logic_cls() -> spec_fn(char) -> bool {
    |c: char| is_logic_char(c)
}

/// The first position at or after `pos` that does not hold whitespace.
pub open spec fn skip_ws(s: Seq<char>, pos: int) -> int
    decreases s.len() - pos,
{
    if 0 <= pos < s.len() && is_ws(s[pos]) {
        skip_ws(s, pos + 1)
    } else {
        pos
    }
}

/// The first position at or after `pos` whose character is not in the
/// class.
pub open spec fn scan_end(s: Seq<char>, pos: int, cls: spec_fn(char) -> bool) -> int
    decreases s.len() - pos,
{
    if 0 <= pos < s.len() && cls(s[pos]) {
        scan_end(s, pos + 1, cls)
    } else {
        pos
    }
}

/// The value of the decimal digits between `pos` and `end`.
pub open spec fn dec_val(s: Seq<char>, pos: int, end: int) -> nat
    decreases end - pos,
{
    if pos >= end {
        0
    } else {
        dec_val(s, pos, end - 1) * 10 + digit_of(s[end - 1])
    }
}

/// The numeric value of one digit character.
pub open spec fn digit_of(c: char) -> nat {
    ((c as u32) - 48) as nat
}

/// `skip_ws` stays within bounds, skips only whitespace, and stops at the
/// first character that is none.
pub proof fn lemma_skip_ws(s: Seq<char>, pos: int)
    requires
        0 <= pos <= s.len(),
    ensures
        pos <= skip_ws(s, pos) <= s.len(),
        forall|i: int| pos <= i < skip_ws(s, pos) ==> is_ws(#[trigger] s[i]),
        skip_ws(s, pos) < s.len() ==> !is_ws(s[skip_ws(s, pos)]),
    decreases s.len() - pos,
{
    if pos < s.len() && is_ws(s[pos]) {
        lemma_skip_ws(s, pos + 1);
    }
}

/// `scan_end` stays within bounds, passes only characters of the class,
/// and stops at the first character outside it.
pub proof fn lemma_scan_end(s: Seq<char>, pos: int, cls: spec_fn(char) -> bool)
    requires
        0 <= pos <= s.len(),
    ensures
        pos <= scan_end(s, pos, cls) <= s.len(),
        forall|i: int| pos <= i < scan_end(s, pos, cls) ==> cls(#[trigger] s[i]),
        scan_end(s, pos, cls) < s.len() ==> !cls(s[scan_end(s, pos, cls)]),
    decreases s.len() - pos,
{
    if pos < s.len() && cls(s[pos]) {
        lemma_scan_end(s, pos + 1, cls);
    }
}

/// A longer digit run never has a smaller value.
pub proof fn lemma_dec_val_mono(s: Seq<char>, pos: int, mid: int, end: int)
    requires
        pos <= mid <= end,
    ensures
        dec_val(s, pos, end) >= dec_val(s, pos, mid),
    decreases end - mid,
{
    if mid < end {
        lemma_dec_val_mono(s, pos, mid, end - 1);
    }
}

/// Primary: a parenthesized additive expression, an integer literal whose
/// value fits in 64 signed bits, or a variable name. The literal rule is
/// tried before the name rule, so a run that begins with a digit is read
/// as a number.
pub open spec fn sp_primary(s: Seq<char>, pos: int) -> Option<(int, AstView)>
    decreases s.len() - pos, 0int,
{
    let p = skip_ws(s, pos);
    if p < pos {
        None
    } else if p < s.len() && s[p] == '(' {
        match sp_add(s, p + 1) {
            Some((p2, inner)) => {
                let q = skip_ws(s, p2);
                if q < s.len() && s[q] == ')' {
                    Some((q + 1, inner))
                } else {
                    None
                }
            },
            None => None,
        }
    } else if p < s.len() && is_digit(s[p]) {
        let e = scan_end(s, p, digit_cls());
        if dec_val(s, p, e) <= i64::MAX {
            Some((e, AstView::Literal(Value::Integer(dec_val(s, p, e) as i64))))
        } else {
            None
        }
    } else if p < s.len() && is_ident(s[p]) {
        let e = scan_end(s, p, ident_cls());
        Some((e, AstView::Variable(s.subrange(p, e))))
    } else {
        None
    }
}

/// Unary: zero or more prefix signs, applied right to left as written, in
/// front of a primary.
pub open spec fn sp_unary(s: Seq<char>, pos: int) -> Option<(int, AstView)>
    decreases s.len() - pos, 1int,
{
    let p = skip_ws(s, pos);
    if p < pos {
        None
    } else if p < s.len() && (s[p] == '+' || s[p] == '-') {
        let op = if s[p] == '+' {
            UnaryOpKind::UPlus
        } else {
            UnaryOpKind::UMinus
        };
        match sp_unary(s, p + 1) {
            Some((p2, inner)) => Some(
                (p2, AstView::Monomial { operator: op, expr: Box::new(inner) }),
            ),
            None => None,
        }
    } else {
        sp_primary(s, pos)
    }
}

/// Exponent: a unary operand, optionally raised to an exponent expression
/// that itself recurses into this level, which makes `^` right associative.
pub open spec fn sp_exp(s: Seq<char>, pos: int) -> Option<(int, AstView)>
    decreases s.len() - pos, 2int,
{
    match sp_unary(s, pos) {
        Some((p1, left)) => {
            let p = skip_ws(s, p1);
            if pos <= p && p < s.len() && s[p] == '^' {
                match sp_exp(s, p + 1) {
                    Some((p2, right)) => Some(
                        (
                            p2,
                            AstView::Expr {
                                left: Box::new(left),
                                operator: ExprOpKind::EExp,
                                right: Box::new(right),
                            },
                        ),
                    ),
                    None => Some((p1, left)),
                }
            } else {
                Some((p1, left))
            }
        },
        None => None,
    }
}

/// Multiplicative: an exponent operand followed by any number of `*` or `/`
/// steps, folded to the left.
pub open spec fn sp_mul(s: Seq<char>, pos: int) -> Option<(int, AstView)>
    decreases s.len() - pos, 3int,
{
    match sp_exp(s, pos) {
        Some((p1, left)) => if pos < p1 <= s.len() {
            sp_mul_more(s, p1, left)
        } else {
            Some((p1, left))
        },
        None => None,
    }
}

/// The remaining `*` and `/` steps of a multiplicative chain. A trailing
/// operator without an operand is not consumed.
pub open spec fn sp_mul_more(s: Seq<char>, pos: int, left: AstView) -> Option<(int, AstView)>
    decreases s.len() - pos, 4int,
{
    let p = skip_ws(s, pos);
    if pos <= p && p < s.len() && (s[p] == '*' || s[p] == '/') {
        let op = if s[p] == '*' {
            ExprOpKind::EMul
        } else {
            ExprOpKind::EDiv
        };
        match sp_exp(s, p + 1) {
            Some((p2, right)) => {
                let node = AstView::Expr {
                    left: Box::new(left),
                    operator: op,
                    right: Box::new(right),
                };
                if p + 1 < p2 <= s.len() {
                    sp_mul_more(s, p2, node)
                } else {
                    Some((p2, node))
                }
            },
            None => Some((pos, left)),
        }
    } else {
        Some((pos, left))
    }
}

/// Additive: a multiplicative operand followed by any number of `+` or `-`
/// steps, folded to the left. This is the plain arithmetic entry point.
pub open spec fn sp_add(s: Seq<char>, pos: int) -> Option<(int, AstView)>
    decreases s.len() - pos, 5int,
{
    match sp_mul(s, pos) {
        Some((p1, left)) => if pos < p1 <= s.len() {
            sp_add_more(s, p1, left)
        } else {
            Some((p1, left))
        },
        None => None,
    }
}

/// The remaining `+` and `-` steps of an additive chain.
pub open spec fn sp_add_more(s: Seq<char>, pos: int, left: AstView) -> Option<(int, AstView)>
    decreases s.len() - pos, 6int,
{
    let p = skip_ws(s, pos);
    if pos <= p && p < s.len() && (s[p] == '+' || s[p] == '-') {
        let op = if s[p] == '+' {
            ExprOpKind::EAdd
        } else {
            ExprOpKind::ESub
        };
        match sp_mul(s, p + 1) {
            Some((p2, right)) => {
                let node = AstView::Expr {
                    left: Box::new(left),
                    operator: op,
                    right: Box::new(right),
                };
                if p + 1 < p2 <= s.len() {
                    sp_add_more(s, p2, node)
                } else {
                    Some((p2, node))
                }
            },
            None => Some((pos, left)),
        }
    } else {
        Some((pos, left))
    }
}

/// The comparison operator a run of comparison characters spells, if any.
pub open spec fn cmp_op_of(run: Seq<char>) -> Option<ComparisonOpKind> {
    if run.len() == 1 && run[0] == '>' {
        Some(ComparisonOpKind::CGreater)
    } else if run.len() == 1 && run[0] == '<' {
        Some(ComparisonOpKind::CLess)
    } else if run.len() == 2 && run[0] == '=' && run[1] == '=' {
        Some(ComparisonOpKind::CEqual)
    } else if run.len() == 2 && run[0] == '!' && run[1] == '=' {
        Some(ComparisonOpKind::CNot)
    } else if run.len() == 2 && run[0] == '>' && run[1] == '=' {
        Some(ComparisonOpKind::CGreaterEqual)
    } else if run.len() == 2 && run[0] == '<' && run[1] == '=' {
        Some(ComparisonOpKind::CLessEqual)
    } else {
        None
    }
}

/// The logical operator a run of logical characters spells, if any.
pub open spec fn logical_op_of(run: Seq<char>) -> Option<LogicalOpKind> {
    if run.len() == 2 && run[0] == '&' && run[1] == '&' {
        Some(LogicalOpKind::LAnd)
    } else if run.len() == 2 && run[0] == '|' && run[1] == '|' {
        Some(LogicalOpKind::LOr)
    } else {
        None
    }
}

/// The assignment operator a run of assignment characters spells, if any.
pub open spec fn assign_op_of(run: Seq<char>) -> Option<AssignmentOpKind> {
    if run.len() == 1 && run[0] == '=' {
        Some(AssignmentOpKind::AEqual)
    } else if run.len() == 2 && run[0] == '+' && run[1] == '=' {
        Some(AssignmentOpKind::AAdd)
    } else if run.len() == 2 && run[0] == '-' && run[1] == '=' {
        Some(AssignmentOpKind::ASub)
    } else if run.len() == 2 && run[0] == '*' && run[1] == '=' {
        Some(AssignmentOpKind::AMul)
    } else if run.len() == 2 && run[0] == '/' && run[1] == '=' {
        Some(AssignmentOpKind::ADiv)
    } else {
        None
    }
}

/// The declared type a keyword spells, if any: `int` or `float`.
pub open spec fn type_of_word(word: Seq<char>) -> Option<ValueType> {
    if word.len() == 3 && word[0] == 'i' && word[1] == 'n' && word[2] == 't' {
        Some(ValueType::Integer)
    } else if word.len() == 5 && word[0] == 'f' && word[1] == 'l' && word[2] == 'o' && word[3]
        == 'a' && word[4] == 't' {
        Some(ValueType::Float)
    } else {
        None
    }
}

/// Comparison: an additive expression, exactly one comparison operator, and
/// another additive expression. A run of comparison characters that spells
/// no recognized operator is fatal.
pub open spec fn sp_comparison(s: Seq<char>, pos: int) -> StRes {
    match sp_add(s, pos) {
        Some((p1, left)) => {
            let p = skip_ws(s, p1);
            if 0 <= p <= s.len() {
                let e = scan_end(s, p, cmp_cls());
                if p < e {
                    match cmp_op_of(s.subrange(p, e)) {
                        Some(op) => match sp_add(s, e) {
                            Some((p2, right)) => StRes::Parsed(
                                p2,
                                AstView::ComparisonExpr {
                                    left: Box::new(left),
                                    operator: op,
                                    right: Box::new(right),
                                },
                            ),
                            None => StRes::Fail,
                        },
                        None => StRes::Fatal(s.subrange(p, e)),
                    }
                } else {
                    StRes::Fail
                }
            } else {
                StRes::Fail
            }
        },
        None => StRes::Fail,
    }
}

/// Conditional expression: one comparison, then any number of logical
/// steps, each carrying one more comparison, folded to the left. A run of
/// logical characters that spells no recognized operator is fatal.
pub open spec fn sp_and_or(s: Seq<char>, pos: int) -> StRes {
    match sp_comparison(s, pos) {
        StRes::Parsed(p1, left) => if pos < p1 <= s.len() {
            sp_and_or_more(s, p1, left)
        } else {
            StRes::Parsed(p1, left)
        },
        other => other,
    }
}

/// The remaining logical steps of a conditional expression. A trailing
/// operator without a following comparison is not consumed.
pub open spec fn sp_and_or_more(s: Seq<char>, pos: int, left: AstView) -> StRes
    decreases s.len() - pos,
{
    let p = skip_ws(s, pos);
    if pos <= p && p <= s.len() {
        let e = scan_end(s, p, logic_cls());
        if p < e {
            match logical_op_of(s.subrange(p, e)) {
                Some(op) => match sp_comparison(s, e) {
                    StRes::Parsed(p2, right) => {
                        let node = AstView::LogicalExpr {
                            left: Box::new(left),
                            operator: op,
                            right: Box::new(right),
                        };
                        if e < p2 <= s.len() && pos < e {
                            sp_and_or_more(s, p2, node)
                        } else {
                            StRes::Parsed(p2, node)
                        }
                    },
                    StRes::Fail => StRes::Parsed(pos, left),
                    StRes::Fatal(w) => StRes::Fatal(w),
                },
                None => StRes::Fatal(s.subrange(p, e)),
            }
        } else {
            StRes::Parsed(pos, left)
        }
    } else {
        StRes::Parsed(pos, left)
    }
}

/// A variable name: a nonempty run of identifier characters that is not
/// made of digits alone.
pub open spec fn sp_name(s: Seq<char>, pos: int) -> Option<(int, Seq<char>)> {
    if 0 <= pos <= s.len() {
        let e = scan_end(s, pos, ident_cls());
        if pos < e && scan_end(s, pos, digit_cls()) < e {
            Some((e, s.subrange(pos, e)))
        } else {
            None
        }
    } else {
        None
    }
}

/// Variable declaration: the keyword `let`, a name, `:`, a type keyword, `=`
/// and an additive expression. An unrecognized type keyword is fatal.
pub open spec fn sp_decl(s: Seq<char>, pos: int) -> StRes {
    if 0 <= pos && pos + 3 <= s.len() && s[pos] == 'l' && s[pos + 1] == 'e' && s[pos + 2] == 't' {
        let p = skip_ws(s, pos + 3);
        match sp_name(s, p) {
            Some((p1, name)) => {
                let q = skip_ws(s, p1);
                if q < s.len() && s[q] == ':' {
                    let t0 = skip_ws(s, q + 1);
                    if 0 <= t0 <= s.len() {
                        let t1 = scan_end(s, t0, alnum_cls());
                        match type_of_word(s.subrange(t0, t1)) {
                            Some(vt) => {
                                let u = skip_ws(s, t1);
                                if u < s.len() && s[u] == '=' {
                                    match sp_add(s, u + 1) {
                                        Some((p2, expr)) => StRes::Parsed(
                                            p2,
                                            AstView::VariableDeclaration {
                                                name: name,
                                                value_type: vt,
                                                expr: Box::new(expr),
                                            },
                                        ),
                                        None => StRes::Fail,
                                    }
                                } else {
                                    StRes::Fail
                                }
                            },
                            None => StRes::Fatal(s.subrange(t0, t1)),
                        }
                    } else {
                        StRes::Fail
                    }
                } else {
                    StRes::Fail
                }
            },
            None => StRes::Fail,
        }
    } else {
        StRes::Fail
    }
}

/// Variable assignment: a name, an assignment operator and an additive
/// expression. A run of assignment characters that spells no recognized
/// operator is fatal.
pub open spec fn sp_assign(s: Seq<char>, pos: int) -> StRes {
    match sp_name(s, pos) {
        Some((p1, name)) => {
            let p = skip_ws(s, p1);
            if 0 <= p <= s.len() {
                let e = scan_end(s, p, assign_cls());
                if p < e {
                    match assign_op_of(s.subrange(p, e)) {
                        Some(op) => match sp_add(s, e) {
                            Some((p2, expr)) => StRes::Parsed(
                                p2,
                                AstView::VariableAssignment {
                                    name: name,
                                    operator: op,
                                    expr: Box::new(expr),
                                },
                            ),
                            None => StRes::Fail,
                        },
                        None => StRes::Fatal(s.subrange(p, e)),
                    }
                } else {
                    StRes::Fail
                }
            } else {
                StRes::Fail
            }
        },
        None => StRes::Fail,
    }
}

/// Function call: a name immediately followed by `(`, one additive
/// expression, and `)`.
pub open spec fn sp_call(s: Seq<char>, pos: int) -> Option<(int, AstView)> {
    match sp_name(s, pos) {
        Some((p1, name)) => if p1 < s.len() && s[p1] == '(' {
            match sp_add(s, p1 + 1) {
                Some((p2, arg)) => {
                    let q = skip_ws(s, p2);
                    if q < s.len() && s[q] == ')' {
                        Some((q + 1, AstView::FunctionCall { name: name, argument: Box::new(arg) }))
                    } else {
                        None
                    }
                },
                None => None,
            }
        } else {
            None
        },
        None => None,
    }
}

/// One top-level node, after leading whitespace: a declaration, an
/// assignment, a function call or a bare expression, tried in that order,
/// first match wins. A bare expression that is nothing but a variable name
/// is rejected: that shape is reserved for the starts of assignments and
/// calls, and a stray identifier would otherwise be read as a statement.
pub open spec fn sp_root(s: Seq<char>, pos: int) -> StRes {
    let p = skip_ws(s, pos);
    if 0 <= p <= s.len() {
        match sp_decl(s, p) {
            StRes::Parsed(p2, node) => StRes::Parsed(p2, node),
            StRes::Fatal(w) => StRes::Fatal(w),
            StRes::Fail => match sp_assign(s, p) {
                StRes::Parsed(p2, node) => StRes::Parsed(p2, node),
                StRes::Fatal(w) => StRes::Fatal(w),
                StRes::Fail => match sp_call(s, p) {
                    Some((p2, node)) => StRes::Parsed(p2, node),
                    None => match sp_add(s, p) {
                        Some((p2, node)) => if node is Variable {
                            StRes::Fail
                        } else {
                            StRes::Parsed(p2, node)
                        },
                        None => StRes::Fail,
                    },
                },
            },
        }
    } else {
        StRes::Fail
    }
}

/// A whole program: top-level nodes parsed in sequence until only
/// whitespace remains. When no alternative matches, the parse fails with
/// the position of everything not yet consumed.
pub open spec fn sp_program(s: Seq<char>, pos: int) -> ProgRes
    decreases s.len() - pos,
{
    if skip_ws(s, pos) >= s.len() {
        ProgRes::Parsed(Seq::empty())
    } else {
        match sp_root(s, pos) {
            StRes::Parsed(p2, node) => if pos < p2 <= s.len() {
                match sp_program(s, p2) {
                    ProgRes::Parsed(rest) => ProgRes::Parsed(seq![node] + rest),
                    other => other,
                }
            } else {
                ProgRes::Syntax(pos)
            },
            StRes::Fail => ProgRes::Syntax(pos),
            StRes::Fatal(w) => ProgRes::Fatal(w),
        }
    }
}

} // verus!
