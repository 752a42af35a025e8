//! Runtime values and their operators.
//!
//! A `Value` is a small tagged scalar: a 64-bit signed integer or a boolean.
//! Floating-point values are kept outside this verified core, so every
//! number here is an integer. Arithmetic is defined on integers only,
//! comparisons produce booleans from integer operands, and the logical
//! operators accept booleans only; every other combination is a
//! `TypeMismatch`. Arithmetic that leaves the 64-bit range is an `Overflow`
//! fault rather than a wrap or a panic.

use vstd::arithmetic::power::{pow, lemma_pow0, lemma0_pow, lemma1_pow};
use vstd::math::abs;
use vstd::prelude::*;
use vstd::string::StringExecFns;

use crate::ast::{ComparisonOpKind, LogicalOpKind};
use crate::machine::{MachineError, MachineFault, eval_res_view};

verus! {

/// A runtime scalar. Once constructed, its variant never changes; operators
/// consume two values and produce a new one.
#[derive(Debug, PartialEq, Eq, Structural, Clone, Copy)]
pub enum Value {
    Integer(i64),
    Bool(bool),
}

/// Whether a mathematical integer fits in 64 signed bits.
pub open spec fn in_i64(x: int) -> bool {
    i64::MIN <= x <= i64::MAX
}

/// Truncating division: the quotient rounded toward zero, as the `/` of the
/// underlying machine computes it for signed integers.
pub open spec fn trunc_div(x: int, d: int) -> int {
    if x == 0 {
        0
    } else if x > 0 && d > 0 {
        x / d
    } else if x < 0 && d < 0 {
        (-x) / (-d)
    } else if x < 0 {
        -((-x) / d)
    } else {
        -(x / (-d))
    }
}

/// Addition; integers only, faulting on 64-bit overflow.
pub open spec fn spec_add(a: Value, b: Value) -> Result<Value, MachineFault> {
    match (a, b) {
        (Value::Integer(x), Value::Integer(y)) => if in_i64(x + y) {
            Ok(Value::Integer((x + y) as i64))
        } else {
            Err(MachineFault::Overflow)
        },
        _ => Err(MachineFault::TypeMismatch),
    }
}

/// Subtraction; integers only, faulting on 64-bit overflow.
pub open spec fn spec_sub(a: Value, b: Value) -> Result<Value, MachineFault> {
    match (a, b) {
        (Value::Integer(x), Value::Integer(y)) => if in_i64(x - y) {
            Ok(Value::Integer((x - y) as i64))
        } else {
            Err(MachineFault::Overflow)
        },
        _ => Err(MachineFault::TypeMismatch),
    }
}

/// Multiplication; integers only, faulting on 64-bit overflow.
pub open spec fn spec_mul(a: Value, b: Value) -> Result<Value, MachineFault> {
    match (a, b) {
        (Value::Integer(x), Value::Integer(y)) => if in_i64(x * y) {
            Ok(Value::Integer((x * y) as i64))
        } else {
            Err(MachineFault::Overflow)
        },
        _ => Err(MachineFault::TypeMismatch),
    }
}

/// Division; integers only, truncating, faulting on a zero divisor and on
/// overflow (the quotient of `i64::MIN` and `-1` has no 64-bit home).
pub open spec fn spec_div(a: Value, b: Value) -> Result<Value, MachineFault> {
    match (a, b) {
        (Value::Integer(x), Value::Integer(y)) => if y == 0 {
            Err(MachineFault::DivisionByZero)
        } else if in_i64(trunc_div(x as int, y as int)) {
            Ok(Value::Integer(trunc_div(x as int, y as int) as i64))
        } else {
            Err(MachineFault::Overflow)
        },
        _ => Err(MachineFault::TypeMismatch),
    }
}

/// Exponentiation; integers only, faulting on a negative exponent and on
/// 64-bit overflow of the power.
pub open spec fn spec_exp(a: Value, b: Value) -> Result<Value, MachineFault> {
    match (a, b) {
        (Value::Integer(x), Value::Integer(y)) => if y < 0 {
            Err(MachineFault::NegativeExponent)
        } else if in_i64(pow(x as int, y as nat)) {
            Ok(Value::Integer(pow(x as int, y as nat) as i64))
        } else {
            Err(MachineFault::Overflow)
        },
        _ => Err(MachineFault::TypeMismatch),
    }
}

/// Additive inverse; integers only, faulting on the one unrepresentable
/// negation.
pub open spec fn spec_neg(a: Value) -> Result<Value, MachineFault> {
    match a {
        Value::Integer(x) => if in_i64(-(x as int)) {
            Ok(Value::Integer((-(x as int)) as i64))
        } else {
            Err(MachineFault::Overflow)
        },
        _ => Err(MachineFault::TypeMismatch),
    }
}

/// Comparison; integer operands only, producing a boolean.
pub open spec fn spec_compare(a: Value, op: ComparisonOpKind, b: Value) -> Result<
    Value,
    MachineFault,
> {
    match (a, b) {
        (Value::Integer(x), Value::Integer(y)) => Ok(
            Value::Bool(
                match op {
                    ComparisonOpKind::CEqual => x == y,
                    ComparisonOpKind::CNot => x != y,
                    ComparisonOpKind::CGreater => x > y,
                    ComparisonOpKind::CLess => x < y,
                    ComparisonOpKind::CGreaterEqual => x >= y,
                    ComparisonOpKind::CLessEqual => x <= y,
                },
            ),
        ),
        _ => Err(MachineFault::TypeMismatch),
    }
}

/// Logical conjunction and disjunction; boolean operands only. Both sides
/// are already evaluated, so there is no short-circuiting to observe.
pub open spec fn spec_logical(a: Value, op: LogicalOpKind, b: Value) -> Result<
    Value,
    MachineFault,
> {
    match (a, b) {
        (Value::Bool(x), Value::Bool(y)) => Ok(
            Value::Bool(
                match op {
                    LogicalOpKind::LAnd => x && y,
                    LogicalOpKind::LOr => x || y,
                },
            ),
        ),
        _ => Err(MachineFault::TypeMismatch),
    }
}

/// The decimal digits of `n`, most significant first.
pub open spec fn spec_digits(n: nat) -> Seq<char>
    decreases n,
{
    if n < 10 {
        seq![digit_char(n)]
    } else {
        spec_digits(n / 10).push(digit_char(n % 10))
    }
}

/// The character of one decimal digit.
pub open spec fn digit_char(d: nat) -> char {
    if d == 0 {
        '0'
    } else if d == 1 {
        '1'
    } else if d == 2 {
        '2'
    } else if d == 3 {
        '3'
    } else if d == 4 {
        '4'
    } else if d == 5 {
        '5'
    } else if d == 6 {
        '6'
    } else if d == 7 {
        '7'
    } else if d == 8 {
        '8'
    } else {
        '9'
    }
}

/// The decimal text of a signed integer.
pub open spec fn spec_int_text(i: int) -> Seq<char> {
    if i < 0 {
        seq!['-'] + spec_digits((-i) as nat)
    } else {
        spec_digits(i as nat)
    }
}

/// The display text of a value: integers in decimal, booleans as `true` or
/// `false`.
pub open spec fn spec_value_text(v: Value) -> Seq<char> {
    match v {
        Value::Integer(i) => spec_int_text(i as int),
        Value::Bool(b) => if b {
            "true"@
        } else {
            "false"@
        },
    }
}

/// Appends the decimal digits of `n` to `out`.
fn push_digits(n: u64, out: &mut String)
    ensures
        final(out)@ == old(out)@ + spec_digits(n as nat),
    decreases n,
{
    if n >= 10 {
        push_digits(n / 10, out);
    }
    let d = n % 10;
    proof {
        reveal_strlit("0");
        reveal_strlit("1");
        reveal_strlit("2");
        reveal_strlit("3");
        reveal_strlit("4");
        reveal_strlit("5");
        reveal_strlit("6");
        reveal_strlit("7");
        reveal_strlit("8");
        reveal_strlit("9");
        assert(spec_digits(n as nat) == if n < 10 {
            seq![digit_char(n as nat)]
        } else {
            spec_digits(n as nat / 10).push(digit_char(n as nat % 10))
        });
    }
    if d == 0 {
        out.append("0");
    } else if d == 1 {
        out.append("1");
    } else if d == 2 {
        out.append("2");
    } else if d == 3 {
        out.append("3");
    } else if d == 4 {
        out.append("4");
    } else if d == 5 {
        out.append("5");
    } else if d == 6 {
        out.append("6");
    } else if d == 7 {
        out.append("7");
    } else if d == 8 {
        out.append("8");
    } else {
        out.append("9");
    }
    proof {
        assert(final(out)@ =~= old(out)@ + spec_digits(n as nat));
    }
}

impl Value {
    /// Adds two values per the promotion-free integer rule.
    pub fn add(self, rhs: Value) -> (r: Result<Value, MachineError>)
        ensures
            eval_res_view(r) == spec_add(self, rhs),
    {
        match (self, rhs) {
            (Value::Integer(x), Value::Integer(y)) => match x.checked_add(y) {
                Some(z) => Ok(Value::Integer(z)),
                None => Err(MachineError::Overflow),
            },
            _ => Err(MachineError::TypeMismatch),
        }
    }

    /// Subtracts `rhs` from `self`.
    pub fn sub(self, rhs: Value) -> (r: Result<Value, MachineError>)
        ensures
            eval_res_view(r) == spec_sub(self, rhs),
    {
        match (self, rhs) {
            (Value::Integer(x), Value::Integer(y)) => match x.checked_sub(y) {
                Some(z) => Ok(Value::Integer(z)),
                None => Err(MachineError::Overflow),
            },
            _ => Err(MachineError::TypeMismatch),
        }
    }

    /// Multiplies two values.
    pub fn mul(self, rhs: Value) -> (r: Result<Value, MachineError>)
        ensures
            eval_res_view(r) == spec_mul(self, rhs),
    {
        match (self, rhs) {
            (Value::Integer(x), Value::Integer(y)) => match x.checked_mul(y) {
                Some(z) => Ok(Value::Integer(z)),
                None => Err(MachineError::Overflow),
            },
            _ => Err(MachineError::TypeMismatch),
        }
    }

    /// Divides `self` by `rhs`, truncating toward zero.
    pub fn div(self, rhs: Value) -> (r: Result<Value, MachineError>)
        ensures
            eval_res_view(r) == spec_div(self, rhs),
    {
        match (self, rhs) {
            (Value::Integer(x), Value::Integer(y)) => if y == 0 {
                Err(MachineError::DivisionByZero)
            } else {
                match x.checked_div(y) {
                    Some(z) => Ok(Value::Integer(z)),
                    None => Err(MachineError::Overflow),
                }
            },
            _ => Err(MachineError::TypeMismatch),
        }
    }

    /// Raises `self` to the power `rhs`.
    pub fn exp(self, rhs: Value) -> (r: Result<Value, MachineError>)
        ensures
            eval_res_view(r) == spec_exp(self, rhs),
    {
        match (self, rhs) {
            (Value::Integer(x), Value::Integer(y)) => int_exp(x, y),
            _ => Err(MachineError::TypeMismatch),
        }
    }

    /// Negates `self`.
    pub fn neg(self) -> (r: Result<Value, MachineError>)
        ensures
            eval_res_view(r) == spec_neg(self),
    {
        match self {
            Value::Integer(x) => if x == i64::MIN {
                Err(MachineError::Overflow)
            } else {
                Ok(Value::Integer(-x))
            },
            _ => Err(MachineError::TypeMismatch),
        }
    }

    /// Compares two values, producing a boolean.
    pub fn compare(self, op: ComparisonOpKind, rhs: Value) -> (r: Result<Value, MachineError>)
        ensures
            eval_res_view(r) == spec_compare(self, op, rhs),
    {
        match (self, rhs) {
            (Value::Integer(x), Value::Integer(y)) => Ok(
                Value::Bool(
                    match op {
                        ComparisonOpKind::CEqual => x == y,
                        ComparisonOpKind::CNot => x != y,
                        ComparisonOpKind::CGreater => x > y,
                        ComparisonOpKind::CLess => x < y,
                        ComparisonOpKind::CGreaterEqual => x >= y,
                        ComparisonOpKind::CLessEqual => x <= y,
                    },
                ),
            ),
            _ => Err(MachineError::TypeMismatch),
        }
    }

    /// Combines two boolean values with a logical operator.
    pub fn logical(self, op: LogicalOpKind, rhs: Value) -> (r: Result<Value, MachineError>)
        ensures
            eval_res_view(r) == spec_logical(self, op, rhs),
    {
        match (self, rhs) {
            (Value::Bool(x), Value::Bool(y)) => Ok(
                Value::Bool(
                    match op {
                        LogicalOpKind::LAnd => x && y,
                        LogicalOpKind::LOr => x || y,
                    },
                ),
            ),
            _ => Err(MachineError::TypeMismatch),
        }
    }

    /// The display text of this value.
    pub fn to_text(&self) -> (s: String)
        ensures
            s@ == spec_value_text(*self),
    {
        match self {
            Value::Integer(i) => {
                let iv = *i;
                if iv < 0 {
                    let mut s = String::from_str("-");
                    let magnitude: u64 = if iv == i64::MIN {
                        9223372036854775808u64
                    } else {
                        (-iv) as u64
                    };
                    proof {
                        reveal_strlit("-");
                        assert(s@ =~= seq!['-']);
                        assert(magnitude as nat == (-(iv as int)) as nat);
                    }
                    push_digits(magnitude, &mut s);
                    s
                } else {
                    let mut s = String::new();
                    proof {
                        assert(s@ =~= Seq::<char>::empty());
                    }
                    push_digits(iv as u64, &mut s);
                    proof {
                        assert(s@ =~= spec_digits(iv as nat));
                    }
                    s
                }
            },
            Value::Bool(b) => if *b {
                String::from_str("true")
            } else {
                String::from_str("false")
            },
        }
    }
}

/// Raises an integer to an integer power with 64-bit overflow detection.
fn int_exp(base: i64, exponent: i64) -> (r: Result<Value, MachineError>)
    ensures
        eval_res_view(r) == spec_exp(Value::Integer(base), Value::Integer(exponent)),
{
    if exponent < 0 {
        return Err(MachineError::NegativeExponent);
    }
    if exponent == 0 {
        proof {
            lemma_pow0(base as int);
        }
        return Ok(Value::Integer(1));
    }
    if base == 0 {
        proof {
            lemma0_pow(exponent as nat);
        }
        return Ok(Value::Integer(0));
    }
    if base == 1 {
        proof {
            lemma1_pow(exponent as nat);
        }
        return Ok(Value::Integer(1));
    }
    if base == -1 {
        proof {
            lemma_neg_one_pow(exponent as nat);
            assert((exponent as u64) as int == exponent as int);
        }
        if (exponent as u64) % 2 == 0 {
            return Ok(Value::Integer(1));
        } else {
            return Ok(Value::Integer(-1));
        }
    }
    // |base| >= 2: the power grows strictly, so overflow arrives within 64
    // rounds of multiplication.
    let mut acc: i64 = 1;
    let mut i: i64 = 0;
    proof {
        reveal(pow);
    }
    while i < exponent
        invariant
            0 <= i <= exponent,
            abs(base as int) >= 2,
            acc as int == pow(base as int, i as nat),
        decreases exponent - i,
    {
        match acc.checked_mul(base) {
            Some(z) => {
                proof {
                    reveal(pow);
                    assert(pow(base as int, (i + 1) as nat) == base as int * pow(
                        base as int,
                        i as nat,
                    ));
                }
                acc = z;
                i = i + 1;
            },
            None => {
                proof {
                    reveal(pow);
                    let b = base as int;
                    assert(pow(b, (i + 1) as nat) == b * pow(b, i as nat));
                    assert(!in_i64(pow(b, (i + 1) as nat)));
                    lemma_pow_overflow(b, (i + 1) as nat, exponent as nat);
                }
                return Err(MachineError::Overflow);
            },
        }
    }
    Ok(Value::Integer(acc))
}

/// Negative one to a power alternates between one and negative one.
proof fn lemma_neg_one_pow(e: nat)
    ensures
        pow(-1, e) == if e % 2 == 0 {
            1int
        } else {
            -1int
        },
    decreases e,
{
    reveal(pow);
    if e > 0 {
        lemma_neg_one_pow((e - 1) as nat);
    }
}

/// Once a power of a base of magnitude at least two has left the 64-bit
/// range, every later power stays outside it.
proof fn lemma_pow_overflow(b: int, j: nat, e: nat)
    requires
        abs(b) >= 2,
        1 <= j <= e,
        !in_i64(pow(b, j)),
    ensures
        !in_i64(pow(b, e)),
    decreases e - j,
{
    reveal(pow);
    if j < e {
        assert(pow(b, (j + 1) as nat) == b * pow(b, j));
        assert(abs(b * pow(b, j)) == abs(b) * abs(pow(b, j))) by (nonlinear_arith);
        assert(abs(b) * abs(pow(b, j)) >= 2 * abs(pow(b, j))) by (nonlinear_arith)
            requires
                abs(b) >= 2,
        ;
        assert(!in_i64(pow(b, (j + 1) as nat)));
        lemma_pow_overflow(b, (j + 1) as nat, e);
    }
}

/// The magnitude of a power is the power of the magnitude.
proof fn lemma_pow_abs(b: int, e: nat)
    ensures
        abs(pow(b, e)) == pow(abs(b) as int, e),
    decreases e,
{
    reveal(pow);
    if e == 0 {
    } else {
        lemma_pow_abs(b, (e - 1) as nat);
        assert(pow(b, e) == b * pow(b, (e - 1) as nat));
        assert(pow(abs(b) as int, e) == abs(b) as int * pow(abs(b) as int, (e - 1) as nat));
        assert(abs(b * pow(b, (e - 1) as nat)) == abs(b) * abs(pow(b, (e - 1) as nat)))
            by (nonlinear_arith);
    }
}


impl From<i64> for Value {
    /// Wraps a 64-bit integer as a value.
    fn from(v: i64) -> (r: Value) {
        Value::Integer(v)
    }
}

impl vstd::std_specs::convert::FromSpecImpl<i64> for Value {
    open spec fn obeys_from_spec() -> bool {
        true
    }

    open spec fn from_spec(v: i64) -> Value {
        Value::Integer(v)
    }
}

impl From<bool> for Value {
    /// Wraps a boolean as a value.
    fn from(v: bool) -> (r: Value) {
        Value::Bool(v)
    }
}

impl vstd::std_specs::convert::FromSpecImpl<bool> for Value {
    open spec fn obeys_from_spec() -> bool {
        true
    }

    open spec fn from_spec(v: bool) -> Value {
        Value::Bool(v)
    }
}

} // verus!

