//! The tree-walking evaluator and its machine state.
//!
//! A `Machine` owns one variable environment and a buffer of lines produced
//! by the `print` builtin. Executing a node with `run` either mutates that
//! state or fails with a `MachineError`; `eval_expression` evaluates a pure
//! expression tree to a `Value`. Both are proved equal to spec-level
//! functions over `MachineModel`, the mathematical model of the state: a
//! map from names to values and the sequence of printed lines.

use vstd::prelude::*;
use vstd::string::StringExecFns;

use crate::ast::{Ast, AstView, AssignmentOpKind, ExprOpKind, UnaryOpKind, ast_view};
use crate::value::{
    Value, in_i64, spec_add, spec_compare, spec_div, spec_exp, spec_logical, spec_mul, spec_neg,
    spec_sub, spec_value_text, trunc_div,
};

verus! {

/// An evaluation-time fault.
///
/// `UndefinedVariable` and `UndefinedFunction` carry the offending name.
/// `TypeMismatch` covers every operator applied to operand variants it is
/// not defined on. `DivisionByZero`, `Overflow` and `NegativeExponent` are
/// the arithmetic faults of 64-bit integer evaluation.
#[derive(Debug, PartialEq, Clone)]
pub enum MachineError {
    UndefinedVariable(String),
    UndefinedFunction(String),
    TypeMismatch,
    DivisionByZero,
    Overflow,
    NegativeExponent,
}

/// The spec-level shadow of `MachineError`, with names as `Seq<char>`.
pub enum MachineFault {
    UndefinedVariable(Seq<char>),
    UndefinedFunction(Seq<char>),
    TypeMismatch,
    DivisionByZero,
    Overflow,
    NegativeExponent,
}

impl View for MachineError {
    type V = MachineFault;

    open spec fn view(&self) -> MachineFault {
        match self {
            MachineError::UndefinedVariable(n) => MachineFault::UndefinedVariable(n@),
            MachineError::UndefinedFunction(n) => MachineFault::UndefinedFunction(n@),
            MachineError::TypeMismatch => MachineFault::TypeMismatch,
            MachineError::DivisionByZero => MachineFault::DivisionByZero,
            MachineError::Overflow => MachineFault::Overflow,
            MachineError::NegativeExponent => MachineFault::NegativeExponent,
        }
    }
}

/// The spec-level shadow of an evaluation result.
pub open spec fn eval_res_view(r: Result<Value, MachineError>) -> Result<Value, MachineFault> {
    match r {
        Ok(v) => Ok(v),
        Err(e) => Err(e@),
    }
}

/// The mathematical model of a machine: the variable environment and the
/// lines produced so far by the `print` builtin.
pub struct MachineModel {
    pub env: Map<Seq<char>, Value>,
    pub out: Seq<Seq<char>>,
}

/// The environment that a sequence of bindings denotes; a later binding for
/// the same name overrides an earlier one.
pub open spec fn env_map(entries: Seq<(String, Value)>) -> Map<Seq<char>, Value>
    decreases entries.len(),
{
    if entries.len() == 0 {
        Map::empty()
    } else {
        env_map(entries.drop_last()).insert(entries.last().0@, entries.last().1)
    }
}

/// Well-formedness of the binding list: names are unique, so each name
/// denotes one value.
pub open spec fn env_wf(entries: Seq<(String, Value)>) -> bool {
    forall|i: int, j: int|
        0 <= i < j < entries.len() ==> #[trigger] entries[i].0@ != #[trigger] entries[j].0@
}

/// A name is in the environment exactly when some binding carries it.
proof fn lemma_env_map_contains(entries: Seq<(String, Value)>, k: Seq<char>)
    ensures
        env_map(entries).contains_key(k) <==> exists|i: int|
            0 <= i < entries.len() && #[trigger] entries[i].0@ == k,
    decreases entries.len(),
{
    if entries.len() > 0 {
        lemma_env_map_contains(entries.drop_last(), k);
        if entries.last().0@ == k {
            assert(entries[entries.len() - 1].0@ == k);
        } else if env_map(entries).contains_key(k) {
            let i = choose|i: int| 0 <= i < entries.drop_last().len() && #[trigger] entries.drop_last()[i].0@ == k;
            assert(entries[i].0@ == k);
        } else {
            assert forall|i: int| 0 <= i < entries.len() && #[trigger] entries[i].0@ == k implies false by {
                assert(i < entries.len() - 1);
                assert(entries.drop_last()[i].0@ == k);
            }
        }
    }
}

/// Under well-formedness, the environment maps a bound name to the value of
/// its binding.
proof fn lemma_env_map_value(entries: Seq<(String, Value)>, idx: int)
    requires
        env_wf(entries),
        0 <= idx < entries.len(),
    ensures
        env_map(entries).contains_key(entries[idx].0@),
        env_map(entries)[entries[idx].0@] == entries[idx].1,
    decreases entries.len(),
{
    if idx == entries.len() - 1 {
    } else {
        assert(env_wf(entries.drop_last())) by {
            assert(forall|i: int, j: int|
                0 <= i < j < entries.drop_last().len() ==> #[trigger] entries.drop_last()[i].0@
                    != #[trigger] entries.drop_last()[j].0@);
        }
        lemma_env_map_value(entries.drop_last(), idx);
        assert(entries.drop_last()[idx] == entries[idx]);
        assert(entries.last().0@ != entries[idx].0@);
    }
}

/// Replacing the binding at `idx` by one with the same name view updates the
/// environment at that name.
proof fn lemma_env_map_update(entries: Seq<(String, Value)>, idx: int, p: (String, Value))
    requires
        env_wf(entries),
        0 <= idx < entries.len(),
        p.0@ == entries[idx].0@,
    ensures
        env_wf(entries.update(idx, p)),
        env_map(entries.update(idx, p)) =~= env_map(entries).insert(p.0@, p.1),
    decreases entries.len(),
{
    let updated = entries.update(idx, p);
    assert(env_wf(updated)) by {
        assert(forall|i: int|
            0 <= i < entries.len() && i != idx ==> #[trigger] updated[i].0@ == entries[i].0@);
    }
    if idx == entries.len() - 1 {
        assert(updated.drop_last() =~= entries.drop_last());
    } else {
        assert(updated.drop_last() =~= entries.drop_last().update(idx, p));
        assert(env_wf(entries.drop_last())) by {
            assert(forall|i: int, j: int|
                0 <= i < j < entries.drop_last().len() ==> #[trigger] entries.drop_last()[i].0@
                    != #[trigger] entries.drop_last()[j].0@);
        }
        lemma_env_map_update(entries.drop_last(), idx, p);
        assert(updated.last() == entries.last());
        assert(entries.last().0@ != p.0@);
    }
}

/// Pure evaluation of an expression tree against an environment: the
/// spec-level meaning of `Machine::eval_expression`. Statement-shaped nodes
/// are not evaluable expressions and fault with `TypeMismatch`.
pub open spec fn spec_eval(env: Map<Seq<char>, Value>, a: AstView) -> Result<Value, MachineFault>
    decreases a,
{
    match a {
        AstView::Literal(v) => Ok(v),
        AstView::Variable(name) => if env.contains_key(name) {
            Ok(env[name])
        } else {
            Err(MachineFault::UndefinedVariable(name))
        },
        AstView::Expr { left, operator, right } => match spec_eval(env, *left) {
            Ok(lv) => match spec_eval(env, *right) {
                Ok(rv) => spec_arith(lv, operator, rv),
                Err(e) => Err(e),
            },
            Err(e) => Err(e),
        },
        AstView::Monomial { operator, expr } => match spec_eval(env, *expr) {
            Ok(v) => match operator {
                UnaryOpKind::UPlus => Ok(v),
                UnaryOpKind::UMinus => spec_neg(v),
            },
            Err(e) => Err(e),
        },
        AstView::ComparisonExpr { left, operator, right } => match spec_eval(env, *left) {
            Ok(lv) => match spec_eval(env, *right) {
                Ok(rv) => spec_compare(lv, operator, rv),
                Err(e) => Err(e),
            },
            Err(e) => Err(e),
        },
        AstView::LogicalExpr { left, operator, right } => match spec_eval(env, *left) {
            Ok(lv) => match spec_eval(env, *right) {
                Ok(rv) => spec_logical(lv, operator, rv),
                Err(e) => Err(e),
            },
            Err(e) => Err(e),
        },
        _ => Err(MachineFault::TypeMismatch),
    }
}

/// Binary arithmetic dispatch.
pub open spec fn spec_arith(a: Value, op: ExprOpKind, b: Value) -> Result<Value, MachineFault> {
    match op {
        ExprOpKind::EAdd => spec_add(a, b),
        ExprOpKind::ESub => spec_sub(a, b),
        ExprOpKind::EMul => spec_mul(a, b),
        ExprOpKind::EDiv => spec_div(a, b),
        ExprOpKind::EExp => spec_exp(a, b),
    }
}

/// The value stored by a compound assignment: the freshly evaluated
/// right-hand side is the left operand of the arithmetic, the previously
/// stored value the right operand.
pub open spec fn spec_assign_op(v: Value, op: AssignmentOpKind, current: Value) -> Result<
    Value,
    MachineFault,
> {
    match op {
        AssignmentOpKind::AEqual => Ok(v),
        AssignmentOpKind::AAdd => spec_add(v, current),
        AssignmentOpKind::ASub => spec_sub(v, current),
        AssignmentOpKind::AMul => spec_mul(v, current),
        AssignmentOpKind::ADiv => spec_div(v, current),
    }
}

/// One step of execution: the spec-level meaning of `Machine::run`.
///
/// A declaration binds its name unconditionally, overwriting any earlier
/// binding; an assignment requires the name to be bound already; a call of
/// the sole builtin `print` appends the display text of its argument to the
/// output; any other node is evaluated for its value alone and changes
/// nothing.
pub open spec fn spec_step(m: MachineModel, a: AstView) -> Result<MachineModel, MachineFault> {
    match a {
        AstView::VariableDeclaration { name, value_type, expr } => match spec_eval(m.env, *expr) {
            Ok(v) => Ok(MachineModel { env: m.env.insert(name, v), out: m.out }),
            Err(e) => Err(e),
        },
        AstView::VariableAssignment { name, operator, expr } => match spec_eval(m.env, *expr) {
            Ok(v) => if m.env.contains_key(name) {
                match spec_assign_op(v, operator, m.env[name]) {
                    Ok(w) => Ok(MachineModel { env: m.env.insert(name, w), out: m.out }),
                    Err(e) => Err(e),
                }
            } else {
                Err(MachineFault::UndefinedVariable(name))
            },
            Err(e) => Err(e),
        },
        AstView::FunctionCall { name, argument } => match spec_eval(m.env, *argument) {
            Ok(v) => if name == "print"@ {
                Ok(MachineModel { env: m.env, out: m.out.push(spec_value_text(v)) })
            } else {
                Err(MachineFault::UndefinedFunction(name))
            },
            Err(e) => Err(e),
        },
        _ => match spec_eval(m.env, a) {
            Ok(v) => Ok(m),
            Err(e) => Err(e),
        },
    }
}

/// The evaluator: one variable environment plus the buffered output of the
/// `print` builtin, alive for the duration of a run.
#[derive(Debug)]
pub struct Machine {
    variables: Vec<(String, Value)>,
    output: Vec<String>,
}

impl View for Machine {
    type V = MachineModel;

    closed spec fn view(&self) -> MachineModel {
        MachineModel { env: env_map(self.variables@), out: self.output.deep_view() }
    }
}

impl Machine {
    /// Well-formedness: each variable name is bound once.
    pub closed spec fn inv(&self) -> bool {
        env_wf(self.variables@)
    }

    /// A fresh machine with an empty environment and no output.
    pub fn new() -> (m: Machine)
        ensures
            m.inv(),
            m@.env == Map::<Seq<char>, Value>::empty(),
            m@.out == Seq::<Seq<char>>::empty(),
    {
        let m = Machine { variables: Vec::new(), output: Vec::new() };
        proof {
            assert(m@.env =~= Map::<Seq<char>, Value>::empty());
            assert(m@.out =~= Seq::<Seq<char>>::empty());
        }
        m
    }

    /// The index of the binding carrying `name`, if any.
    fn find(&self, name: &String) -> (r: Option<usize>)
        ensures
            match r {
                Some(i) => i < self.variables@.len() && self.variables@[i as int].0@ == name@,
                None => forall|i: int|
                    0 <= i < self.variables@.len() ==> #[trigger] self.variables@[i].0@ != name@,
            },
    {
        let mut i: usize = 0;
        while i < self.variables.len()
            invariant
                i <= self.variables@.len(),
                forall|j: int| 0 <= j < i ==> #[trigger] self.variables@[j].0@ != name@,
            decreases self.variables@.len() - i,
        {
            if self.variables[i].0.eq(name) {
                return Some(i);
            }
            i = i + 1;
        }
        None
    }

    /// The value currently bound to `name`, if any.
    pub fn lookup(&self, name: &String) -> (r: Option<Value>)
        requires
            self.inv(),
        ensures
            match r {
                Some(v) => self@.env.contains_key(name@) && self@.env[name@] == v,
                None => !self@.env.contains_key(name@),
            },
    {
        match self.find(name) {
            Some(i) => {
                proof {
                    lemma_env_map_value(self.variables@, i as int);
                }
                Some(self.variables[i].1)
            },
            None => {
                proof {
                    lemma_env_map_contains(self.variables@, name@);
                }
                None
            },
        }
    }

    /// The lines printed so far.
    pub fn output(&self) -> (r: &Vec<String>)
        ensures
            r.deep_view() == self@.out,
    {
        &self.output
    }

    /// Hands the printed lines over and leaves the buffer empty.
    pub fn take_output(&mut self) -> (r: Vec<String>)
        requires
            old(self).inv(),
        ensures
            final(self).inv(),
            r.deep_view() == old(self)@.out,
            final(self)@.out == Seq::<Seq<char>>::empty(),
            final(self)@.env == old(self)@.env,
    {
        let mut taken: Vec<String> = Vec::new();
        core::mem::swap(&mut self.output, &mut taken);
        proof {
            assert(self@.out =~= Seq::<Seq<char>>::empty());
        }
        taken
    }

    /// Binds `name` to `v`, replacing any earlier binding for the name.
    fn insert_var(&mut self, name: String, v: Value)
        requires
            old(self).inv(),
        ensures
            final(self).inv(),
            final(self)@.env =~= old(self)@.env.insert(name@, v),
            final(self)@.out == old(self)@.out,
    {
        match self.find(&name) {
            Some(i) => {
                proof {
                    lemma_env_map_update(self.variables@, i as int, (name, v));
                }
                self.variables[i] = (name, v);
            },
            None => {
                proof {
                    lemma_env_map_contains(self.variables@, name@);
                    assert(env_wf(self.variables@.push((name, v)))) by {
                        let pushed = self.variables@.push((name, v));
                        assert(forall|i: int|
                            0 <= i < self.variables@.len() ==> #[trigger] pushed[i]
                                == self.variables@[i]);
                    }
                }
                self.variables.push((name, v));
                proof {
                    assert(self.variables@.drop_last() =~= old(self).variables@);
                }
            },
        }
    }

    /// Evaluates a pure expression tree to a value. The environment is read
    /// but never written. A statement-shaped node is no expression and
    /// faults with `TypeMismatch`.
    pub fn eval_expression(&self, expr: Ast) -> (r: Result<Value, MachineError>)
        requires
            self.inv(),
        ensures
            eval_res_view(r) == spec_eval(self@.env, ast_view(expr)),
        decreases expr,
    {
        match expr {
            Ast::Literal(v) => Ok(v),
            Ast::Variable(name) => match self.find(&name) {
                Some(i) => {
                    proof {
                        lemma_env_map_value(self.variables@, i as int);
                    }
                    Ok(self.variables[i].1)
                },
                None => {
                    proof {
                        lemma_env_map_contains(self.variables@, name@);
                    }
                    Err(MachineError::UndefinedVariable(name))
                },
            },
            Ast::Expr { left, operator, right } => {
                let lv = match self.eval_expression(*left) {
                    Ok(v) => v,
                    Err(e) => {
                        return Err(e);
                    },
                };
                let rv = match self.eval_expression(*right) {
                    Ok(v) => v,
                    Err(e) => {
                        return Err(e);
                    },
                };
                match operator {
                    ExprOpKind::EAdd => lv.add(rv),
                    ExprOpKind::ESub => lv.sub(rv),
                    ExprOpKind::EMul => lv.mul(rv),
                    ExprOpKind::EDiv => lv.div(rv),
                    ExprOpKind::EExp => lv.exp(rv),
                }
            },
            Ast::Monomial { operator, expr } => {
                let v = match self.eval_expression(*expr) {
                    Ok(v) => v,
                    Err(e) => {
                        return Err(e);
                    },
                };
                match operator {
                    UnaryOpKind::UPlus => Ok(v),
                    UnaryOpKind::UMinus => v.neg(),
                }
            },
            Ast::ComparisonExpr { left, operator, right } => {
                let lv = match self.eval_expression(*left) {
                    Ok(v) => v,
                    Err(e) => {
                        return Err(e);
                    },
                };
                let rv = match self.eval_expression(*right) {
                    Ok(v) => v,
                    Err(e) => {
                        return Err(e);
                    },
                };
                lv.compare(operator, rv)
            },
            Ast::LogicalExpr { left, operator, right } => {
                let lv = match self.eval_expression(*left) {
                    Ok(v) => v,
                    Err(e) => {
                        return Err(e);
                    },
                };
                let rv = match self.eval_expression(*right) {
                    Ok(v) => v,
                    Err(e) => {
                        return Err(e);
                    },
                };
                lv.logical(operator, rv)
            },
            _ => Err(MachineError::TypeMismatch),
        }
    }

    /// Executes one top-level node: a total transition from one machine
    /// state to the next, or a fault that leaves the state untouched.
    pub fn run(&mut self, expr: Ast) -> (r: Result<(), MachineError>)
        requires
            old(self).inv(),
        ensures
            final(self).inv(),
            match spec_step(old(self)@, ast_view(expr)) {
                Ok(m2) => r is Ok && final(self)@ == m2,
                Err(f) => r matches Err(e) && e@ == f && final(self)@ == old(self)@,
            },
    {
        match expr {
            Ast::VariableDeclaration { name, value_type: _, expr } => {
                let v = match self.eval_expression(*expr) {
                    Ok(v) => v,
                    Err(e) => {
                        return Err(e);
                    },
                };
                self.insert_var(name, v);
                Ok(())
            },
            Ast::VariableAssignment { name, operator, expr } => {
                let v = match self.eval_expression(*expr) {
                    Ok(v) => v,
                    Err(e) => {
                        return Err(e);
                    },
                };
                match self.find(&name) {
                    Some(i) => {
                        proof {
                            lemma_env_map_value(self.variables@, i as int);
                        }
                        let current = self.variables[i].1;
                        let newv = match operator {
                            AssignmentOpKind::AEqual => v,
                            AssignmentOpKind::AAdd => match v.add(current) {
                                Ok(w) => w,
                                Err(e) => {
                                    return Err(e);
                                },
                            },
                            AssignmentOpKind::ASub => match v.sub(current) {
                                Ok(w) => w,
                                Err(e) => {
                                    return Err(e);
                                },
                            },
                            AssignmentOpKind::AMul => match v.mul(current) {
                                Ok(w) => w,
                                Err(e) => {
                                    return Err(e);
                                },
                            },
                            AssignmentOpKind::ADiv => match v.div(current) {
                                Ok(w) => w,
                                Err(e) => {
                                    return Err(e);
                                },
                            },
                        };
                        self.insert_var(name, newv);
                        Ok(())
                    },
                    None => {
                        proof {
                            lemma_env_map_contains(self.variables@, name@);
                        }
                        Err(MachineError::UndefinedVariable(name))
                    },
                }
            },
            Ast::FunctionCall { name, argument } => {
                let v = match self.eval_expression(*argument) {
                    Ok(v) => v,
                    Err(e) => {
                        return Err(e);
                    },
                };
                let print_name = String::from_str("print");
                if name.eq(&print_name) {
                    let text = v.to_text();
                    self.output.push(text);
                    proof {
                        assert(self@.out =~= old(self)@.out.push(spec_value_text(v)));
                    }
                    Ok(())
                } else {
                    Err(MachineError::UndefinedFunction(name))
                }
            },
            node => match self.eval_expression(node) {
                Ok(_) => Ok(()),
                Err(e) => Err(e),
            },
        }
    }
}

impl Default for Machine {
    /// A fresh machine, as `new` builds it.
    fn default() -> (m: Machine)
        ensures
            m.inv(),
            m@.env == Map::<Seq<char>, Value>::empty(),
            m@.out == Seq::<Seq<char>>::empty(),
    {
        Machine::new()
    }
}


/// Division of integer literals yields the truncating quotient, as an
/// integer and never any other variant: for all 64-bit integers `a` and
/// `b` with `b` nonzero, evaluating the division node on their literals in
/// any environment gives `Integer(a / b)` rounded toward zero — except for
/// the one quotient with no 64-bit home, `i64::MIN / -1`, which faults
/// with `Overflow`.
pub proof fn lemma_integer_division(env: Map<Seq<char>, Value>, a: i64, b: i64)
    requires
        b != 0,
    ensures
        in_i64(trunc_div(a as int, b as int)) ==> spec_eval(
            env,
            (AstView::Expr {
                left: Box::new(AstView::Literal(Value::Integer(a))),
                operator: ExprOpKind::EDiv,
                right: Box::new(AstView::Literal(Value::Integer(b))),
            }),
        ) == Ok::<Value, MachineFault>(Value::Integer(trunc_div(a as int, b as int) as i64)),
        !in_i64(trunc_div(a as int, b as int)) ==> spec_eval(
            env,
            (AstView::Expr {
                left: Box::new(AstView::Literal(Value::Integer(a))),
                operator: ExprOpKind::EDiv,
                right: Box::new(AstView::Literal(Value::Integer(b))),
            }),
        ) == Err::<Value, MachineFault>(MachineFault::Overflow),
{
    reveal_with_fuel(spec_eval, 2);
    assert(spec_eval(env, AstView::Literal(Value::Integer(a))) == Ok::<Value, MachineFault>(
        Value::Integer(a),
    ));
    assert(spec_eval(env, AstView::Literal(Value::Integer(b))) == Ok::<Value, MachineFault>(
        Value::Integer(b),
    ));
}

} // verus!

