//! The evaluator: walks an expression and yields a value or a type error.
//!
//! Numbers are held as the 64-bit patterns of the doubles they stand for, and
//! their arithmetic is the caller's: `evaluate` takes one closure that computes
//! (reads a literal, negates, adds, subtracts, multiplies, divides) and one that
//! compares. All else (which operators take which operands, truthiness,
//! equality across types, string concatenation) is decided here, and its
//! contract holds for every arithmetic that the closures follow.
use vstd::prelude::*;

use crate::expression::{BinaryExpr, Expr, Literal, Operator, Unary, UnaryExpr};

verus! {

/// A runtime value.
#[derive(Debug, Clone, PartialEq)]
pub enum Value {
    Nil,
    Bool(bool),
    /// A double, as its 64-bit pattern.
    Number(u64),
    String(String),
}

/// The model of a [`Value`].
pub enum ValueModel {
    Nil,
    Bool(bool),
    Number(u64),
    String(Seq<char>),
}

impl View for Value {
    type V = ValueModel;

    open spec fn view(&self) -> ValueModel {
        match self {
            Value::Nil => ValueModel::Nil,
            Value::Bool(b) => ValueModel::Bool(*b),
            Value::Number(n) => ValueModel::Number(*n),
            Value::String(s) => ValueModel::String(s@),
        }
    }
}

/// The type of a value, as a type error names it.
#[derive(Debug, Clone, Copy, PartialEq, Eq)]
pub enum ValueType {
    Nil,
    Bool,
    Number,
    String,
}

/// An operator applied to operands of types it does not take.
#[derive(Debug, Clone, Copy, PartialEq, Eq)]
pub enum TypeError {
    /// `-` applied to a value that is not a number, of the type given.
    Negate(ValueType),
    /// A binary operator applied to operands that it does not take.
    Operands(Operator),
}

/// A computation on numbers that the caller's arithmetic performs.
#[derive(Debug, Clone, PartialEq)]
pub enum NumberOp {
    /// The double that a number literal (its digits as written) stands for.
    Parse(String),
    Negate(u64),
    Add(u64, u64),
    Subtract(u64, u64),
    Multiply(u64, u64),
    Divide(u64, u64),
}

/// A comparison of numbers that the caller's arithmetic decides.
#[derive(Debug, Clone, Copy, PartialEq, Eq)]
pub enum NumberTest {
    Greater(u64, u64),
    GreaterEqual(u64, u64),
    Less(u64, u64),
    Equal(u64, u64),
}

/// Whether the closure `f` computes `num`: every result it can return is the one `num` gives.
pub open spec fn computes<F: Fn(NumberOp) -> u64>(f: F, num: spec_fn(NumberOp) -> u64) -> bool {
    forall|op: NumberOp, r: u64| f.ensures((op,), r) ==> r == num(op)
}

/// Whether the closure `f` decides `test`: every answer it can give is the one `test` gives.
pub open spec fn decides<F: Fn(NumberTest) -> bool>(f: F, test: spec_fn(NumberTest) -> bool) -> bool {
    forall|t: NumberTest, r: bool| f.ensures((t,), r) ==> r == test(t)
}

/// Only nil and false are falsy; every number and every string is truthy.
pub open spec fn truthy(v: ValueModel) -> bool {
    match v {
        ValueModel::Nil => false,
        ValueModel::Bool(b) => b,
        ValueModel::Number(_) => true,
        ValueModel::String(_) => true,
    }
}

pub open spec fn type_of(v: ValueModel) -> ValueType {
    match v {
        ValueModel::Nil => ValueType::Nil,
        ValueModel::Bool(_) => ValueType::Bool,
        ValueModel::Number(_) => ValueType::Number,
        ValueModel::String(_) => ValueType::String,
    }
}

/// `==` on values: where either side is a boolean, it is compared with the
/// other side's truthiness; otherwise values are equal only within one type,
/// numbers as `test` says.
pub open spec fn values_equal(l: ValueModel, r: ValueModel, test: spec_fn(NumberTest) -> bool) -> bool {
    match (l, r) {
        (ValueModel::Bool(v), r) => v == truthy(r),
        (l, ValueModel::Bool(v)) => v == truthy(l),
        (ValueModel::Nil, ValueModel::Nil) => true,
        (ValueModel::Number(a), ValueModel::Number(b)) => test(NumberTest::Equal(a, b)),
        (ValueModel::String(a), ValueModel::String(b)) => a == b,
        _ => false,
    }
}

pub open spec fn literal_value(l: Literal, num: spec_fn(NumberOp) -> u64) -> ValueModel {
    match l {
        Literal::Nil => ValueModel::Nil,
        Literal::Bool(b) => ValueModel::Bool(b),
        Literal::Number(digits) => ValueModel::Number(num(NumberOp::Parse(digits))),
        Literal::String(s) => ValueModel::String(s@),
    }
}

pub open spec fn unary_value(unary: Unary, v: ValueModel, num: spec_fn(NumberOp) -> u64) -> Result<ValueModel, TypeError> {
    match (unary, v) {
        (Unary::Bang, v) => Ok(ValueModel::Bool(!truthy(v))),
        (Unary::Minus, ValueModel::Number(n)) => Ok(ValueModel::Number(num(NumberOp::Negate(n)))),
        (Unary::Minus, v) => Err(TypeError::Negate(type_of(v))),
    }
}

/// An operator applied to two numbers.
pub open spec fn numeric_value(
    op: Operator,
    a: u64,
    b: u64,
    num: spec_fn(NumberOp) -> u64,
    test: spec_fn(NumberTest) -> bool,
) -> ValueModel {
    match op {
        Operator::Greater => ValueModel::Bool(test(NumberTest::Greater(a, b))),
        Operator::GreaterEqual => ValueModel::Bool(test(NumberTest::GreaterEqual(a, b))),
        Operator::Less => ValueModel::Bool(test(NumberTest::Less(a, b))),
        // `<=` answers whether the operands differ, as `!=` does.
        Operator::LessEqual => ValueModel::Bool(!test(NumberTest::Equal(a, b))),
        Operator::Equal => ValueModel::Bool(test(NumberTest::Equal(a, b))),
        Operator::NotEqual => ValueModel::Bool(!test(NumberTest::Equal(a, b))),
        Operator::Minus => ValueModel::Number(num(NumberOp::Subtract(a, b))),
        Operator::Plus => ValueModel::Number(num(NumberOp::Add(a, b))),
        Operator::Divide => ValueModel::Number(num(NumberOp::Divide(a, b))),
        Operator::Multiply => ValueModel::Number(num(NumberOp::Multiply(a, b))),
    }
}

/// A binary operator applied to two values: `==` and `!=` take any operands,
/// `+` two numbers or two strings, the others two numbers.
pub open spec fn binary_value(
    op: Operator,
    l: ValueModel,
    r: ValueModel,
    num: spec_fn(NumberOp) -> u64,
    test: spec_fn(NumberTest) -> bool,
) -> Result<ValueModel, TypeError> {
    match op {
        Operator::Equal => Ok(ValueModel::Bool(values_equal(l, r, test))),
        Operator::NotEqual => Ok(ValueModel::Bool(!values_equal(l, r, test))),
        _ => match (l, r) {
            (ValueModel::Number(a), ValueModel::Number(b)) => Ok(numeric_value(op, a, b, num, test)),
            (ValueModel::String(a), ValueModel::String(b)) if op == Operator::Plus => Ok(
                ValueModel::String(a + b),
            ),
            _ => Err(TypeError::Operands(op)),
        },
    }
}

/// The value of an expression under the arithmetic `num` and `test`: both
/// operands are evaluated, left first, and the first type error ends it.
pub open spec fn eval(e: Expr, num: spec_fn(NumberOp) -> u64, test: spec_fn(NumberTest) -> bool) -> Result<ValueModel, TypeError>
    decreases e,
{
    match e {
        Expr::Literal(l) => Ok(literal_value(l, num)),
        Expr::Grouping(g) => eval(*g.expr, num, test),
        Expr::Unary(u) => match eval(*u.expr, num, test) {
            Ok(v) => unary_value(u.unary, v, num),
            Err(x) => Err(x),
        },
        Expr::Binary(b) => match eval(*b.left, num, test) {
            Ok(l) => match eval(*b.right, num, test) {
                Ok(r) => binary_value(b.operator, l, r, num, test),
                Err(x) => Err(x),
            },
            Err(x) => Err(x),
        },
    }
}

/// Whether an expression is built from number literals with `+ - * /`,
/// prefix `-` and parentheses alone.
pub open spec fn is_arithmetic(e: Expr) -> bool
    decreases e,
{
    match e {
        Expr::Literal(l) => l is Number,
        Expr::Grouping(g) => is_arithmetic(*g.expr),
        Expr::Unary(u) => u.unary == Unary::Minus && is_arithmetic(*u.expr),
        Expr::Binary(b) => (b.operator == Operator::Plus || b.operator == Operator::Minus || b.operator
            == Operator::Multiply || b.operator == Operator::Divide) && is_arithmetic(*b.left)
            && is_arithmetic(*b.right),
    }
}

/// The number that an arithmetic expression computes under `num`, operation by operation.
pub open spec fn arithmetic_value(e: Expr, num: spec_fn(NumberOp) -> u64) -> u64
    decreases e,
{
    match e {
        Expr::Literal(Literal::Number(digits)) => num(NumberOp::Parse(digits)),
        Expr::Grouping(g) => arithmetic_value(*g.expr, num),
        Expr::Unary(u) => num(NumberOp::Negate(arithmetic_value(*u.expr, num))),
        Expr::Binary(b) => {
            let (l, r) = (arithmetic_value(*b.left, num), arithmetic_value(*b.right, num));
            match b.operator {
                Operator::Plus => num(NumberOp::Add(l, r)),
                Operator::Minus => num(NumberOp::Subtract(l, r)),
                Operator::Multiply => num(NumberOp::Multiply(l, r)),
                _ => num(NumberOp::Divide(l, r)),
            }
        },
        _ => 0,
    }
}

/// An expression of number literals, `+ - * /`, prefix `-` and parentheses
/// never fails to evaluate: its value is the number that the arithmetic gives
/// when applied to it operation by operation, comparisons playing no part.
pub proof fn lemma_arithmetic_evaluates(e: Expr, num: spec_fn(NumberOp) -> u64, test: spec_fn(NumberTest) -> bool)
    requires
        is_arithmetic(e),
    ensures
        eval(e, num, test) == Ok::<ValueModel, TypeError>(ValueModel::Number(arithmetic_value(e, num))),
    decreases e,
{
    match e {
        Expr::Literal(_) => {},
        Expr::Grouping(g) => lemma_arithmetic_evaluates(*g.expr, num, test),
        Expr::Unary(u) => lemma_arithmetic_evaluates(*u.expr, num, test),
        Expr::Binary(b) => {
            lemma_arithmetic_evaluates(*b.left, num, test);
            lemma_arithmetic_evaluates(*b.right, num, test);
        },
    }
}

/// Evaluation is a function of the tree and the arithmetic: any two results
/// of evaluating one tree under one arithmetic are the same value, or the same error.
pub proof fn lemma_evaluation_is_pure(
    e: Expr,
    num: spec_fn(NumberOp) -> u64,
    test: spec_fn(NumberTest) -> bool,
    first: Result<Value, TypeError>,
    second: Result<Value, TypeError>,
)
    requires
        result_view(first) == eval(e, num, test),
        result_view(second) == eval(e, num, test),
    ensures
        result_view(first) == result_view(second),
{
}

/// The model of an evaluation's result.
pub open spec fn result_view(r: Result<Value, TypeError>) -> Result<ValueModel, TypeError> {
    match r {
        Ok(v) => Ok(v@),
        Err(x) => Err(x),
    }
}

impl Value {
    pub fn is_truthy(&self) -> (r: bool)
        ensures
            r == truthy(self@),
    {
        match self {
            Value::Nil => false,
            Value::Bool(v) => *v,
            Value::Number(_) => true,
            Value::String(_) => true,
        }
    }

    fn value_type(&self) -> (r: ValueType)
        ensures
            r == type_of(self@),
    {
        match self {
            Value::Nil => ValueType::Nil,
            Value::Bool(_) => ValueType::Bool,
            Value::Number(_) => ValueType::Number,
            Value::String(_) => ValueType::String,
        }
    }
}

/// Evaluates expressions; it holds no state between evaluations.
#[derive(Debug, Default)]
pub struct Interpreter {}

impl Interpreter {
    /// Evaluates `expr`, with `num` and `test` as the arithmetic on numbers.
    pub fn evaluate<F, G>(&mut self, expr: &Expr, num: &F, test: &G) -> (r: Result<Value, TypeError>) where
        F: Fn(NumberOp) -> u64,
        G: Fn(NumberTest) -> bool,

        requires
            forall|op: NumberOp| num.requires((op,)),
            forall|t: NumberTest| test.requires((t,)),
        ensures
            *final(self) == *old(self),
            forall|n: spec_fn(NumberOp) -> u64, t: spec_fn(NumberTest) -> bool|
                computes(*num, n) && decides(*test, t) ==> result_view(r) == #[trigger] eval(*expr, n, t),
        decreases expr, 1nat,
    {
        match expr {
            Expr::Grouping(grouping) => {
                let r = self.evaluate(&grouping.expr, num, test);
                assert forall|n: spec_fn(NumberOp) -> u64, t: spec_fn(NumberTest) -> bool|
                    computes(*num, n) && decides(*test, t) implies result_view(r) == #[trigger] eval(*expr, n, t) by {
                    assert(result_view(r) == eval(*grouping.expr, n, t));
                }
                r
            },
            Expr::Unary(unary) => self.eval_unary(unary, num, test),
            Expr::Binary(binary) => self.eval_binary(binary, num, test),
            Expr::Literal(literal) => {
                let v = match literal {
                    Literal::Nil => Value::Nil,
                    Literal::Bool(v) => Value::Bool(*v),
                    Literal::Number(digits) => Value::Number(num(NumberOp::Parse(digits.clone()))),
                    Literal::String(v) => Value::String(v.clone()),
                };
                Ok(v)
            },
        }
    }

    fn eval_unary<F, G>(&mut self, expr: &UnaryExpr, num: &F, test: &G) -> (r: Result<Value, TypeError>) where
        F: Fn(NumberOp) -> u64,
        G: Fn(NumberTest) -> bool,

        requires
            forall|op: NumberOp| num.requires((op,)),
            forall|t: NumberTest| test.requires((t,)),
        ensures
            *final(self) == *old(self),
            forall|n: spec_fn(NumberOp) -> u64, t: spec_fn(NumberTest) -> bool|
                computes(*num, n) && decides(*test, t) ==> result_view(r) == #[trigger] eval(
                    Expr::Unary(*expr),
                    n,
                    t,
                ),
        decreases Expr::Unary(*expr), 0nat,
    {
        proof {
            let e = Expr::Unary(*expr);
            assert(decreases_to!(e => e->Unary_0));
            assert(decreases_to!(e->Unary_0 => e->Unary_0.expr));
        }
        let value = match self.evaluate(&expr.expr, num, test) {
            Ok(value) => value,
            Err(x) => {
                assert forall|n: spec_fn(NumberOp) -> u64, t: spec_fn(NumberTest) -> bool|
                    computes(*num, n) && decides(*test, t) implies Err::<ValueModel, TypeError>(x) == #[trigger] eval(Expr::Unary(*expr), n, t) by {
                    assert(Err::<ValueModel, TypeError>(x) == eval(*expr.expr, n, t));
                }
                return Err(x);
            },
        };
        let r = match (expr.unary, value) {
            (Unary::Bang, v) => Ok(Value::Bool(!v.is_truthy())),
            (Unary::Minus, Value::Number(v)) => Ok(Value::Number(num(NumberOp::Negate(v)))),
            (Unary::Minus, v) => Err(TypeError::Negate(v.value_type())),
        };
        assert forall|n: spec_fn(NumberOp) -> u64, t: spec_fn(NumberTest) -> bool|
            computes(*num, n) && decides(*test, t) implies result_view(r) == #[trigger] eval(Expr::Unary(*expr), n, t) by {
            assert(Ok::<ValueModel, TypeError>(value@) == eval(*expr.expr, n, t));
        }
        r
    }

    fn eval_binary<F, G>(&mut self, expr: &BinaryExpr, num: &F, test: &G) -> (r: Result<Value, TypeError>) where
        F: Fn(NumberOp) -> u64,
        G: Fn(NumberTest) -> bool,

        requires
            forall|op: NumberOp| num.requires((op,)),
            forall|t: NumberTest| test.requires((t,)),
        ensures
            *final(self) == *old(self),
            forall|n: spec_fn(NumberOp) -> u64, t: spec_fn(NumberTest) -> bool|
                computes(*num, n) && decides(*test, t) ==> result_view(r) == #[trigger] eval(
                    Expr::Binary(*expr),
                    n,
                    t,
                ),
        decreases Expr::Binary(*expr), 0nat,
    {
        proof {
            let e = Expr::Binary(*expr);
            assert(decreases_to!(e => e->Binary_0));
            assert(decreases_to!(e->Binary_0 => e->Binary_0.left));
            assert(decreases_to!(e->Binary_0 => e->Binary_0.right));
        }
        let left = match self.evaluate(&expr.left, num, test) {
            Ok(left) => left,
            Err(x) => {
                assert forall|n: spec_fn(NumberOp) -> u64, t: spec_fn(NumberTest) -> bool|
                    computes(*num, n) && decides(*test, t) implies Err::<ValueModel, TypeError>(x) == #[trigger] eval(Expr::Binary(*expr), n, t) by {
                    assert(Err::<ValueModel, TypeError>(x) == eval(*expr.left, n, t));
                }
                return Err(x);
            },
        };
        let right = match self.evaluate(&expr.right, num, test) {
            Ok(right) => right,
            Err(x) => {
                assert forall|n: spec_fn(NumberOp) -> u64, t: spec_fn(NumberTest) -> bool|
                    computes(*num, n) && decides(*test, t) implies Err::<ValueModel, TypeError>(x) == #[trigger] eval(Expr::Binary(*expr), n, t) by {
                    assert(Ok::<ValueModel, TypeError>(left@) == eval(*expr.left, n, t));
                    assert(Err::<ValueModel, TypeError>(x) == eval(*expr.right, n, t));
                }
                return Err(x);
            },
        };
        let ghost (lv, rv) = (left@, right@);
        let r = apply_binary(expr.operator, left, right, num, test);
        assert forall|n: spec_fn(NumberOp) -> u64, t: spec_fn(NumberTest) -> bool|
            computes(*num, n) && decides(*test, t) implies result_view(r) == #[trigger] eval(Expr::Binary(*expr), n, t) by {
            assert(Ok::<ValueModel, TypeError>(lv) == eval(*expr.left, n, t));
            assert(Ok::<ValueModel, TypeError>(rv) == eval(*expr.right, n, t));
            assert(result_view(r) == binary_value(expr.operator, lv, rv, n, t));
        }
        r
    }
}

/// `==` on values, with `test` deciding it on two numbers.
fn values_equal_exec<G: Fn(NumberTest) -> bool>(l: &Value, r: &Value, test: &G) -> (b: bool)
    requires
        forall|t: NumberTest| test.requires((t,)),
    ensures
        forall|t: spec_fn(NumberTest) -> bool| decides(*test, t) ==> b == #[trigger] values_equal(l@, r@, t),
{
    match (l, r) {
        (Value::Bool(v), r) => *v == r.is_truthy(),
        (l, Value::Bool(v)) => *v == l.is_truthy(),
        (Value::Nil, Value::Nil) => true,
        (Value::Number(a), Value::Number(b)) => test(NumberTest::Equal(*a, *b)),
        (Value::String(a), Value::String(b)) => *a == *b,
        _ => false,
    }
}

/// An operator applied to two numbers.
fn apply_numeric<F, G>(op: Operator, a: u64, b: u64, num: &F, test: &G) -> (r: Value) where
    F: Fn(NumberOp) -> u64,
    G: Fn(NumberTest) -> bool,

    requires
        forall|op: NumberOp| num.requires((op,)),
        forall|t: NumberTest| test.requires((t,)),
    ensures
        forall|n: spec_fn(NumberOp) -> u64, t: spec_fn(NumberTest) -> bool|
            computes(*num, n) && decides(*test, t) ==> r@ == #[trigger] numeric_value(op, a, b, n, t),
{
    match op {
        Operator::Greater => Value::Bool(test(NumberTest::Greater(a, b))),
        Operator::GreaterEqual => Value::Bool(test(NumberTest::GreaterEqual(a, b))),
        Operator::Less => Value::Bool(test(NumberTest::Less(a, b))),
        Operator::LessEqual => Value::Bool(!test(NumberTest::Equal(a, b))),
        Operator::Equal => Value::Bool(test(NumberTest::Equal(a, b))),
        Operator::NotEqual => Value::Bool(!test(NumberTest::Equal(a, b))),
        Operator::Minus => Value::Number(num(NumberOp::Subtract(a, b))),
        Operator::Plus => Value::Number(num(NumberOp::Add(a, b))),
        Operator::Divide => Value::Number(num(NumberOp::Divide(a, b))),
        Operator::Multiply => Value::Number(num(NumberOp::Multiply(a, b))),
    }
}

/// A binary operator applied to two values.
fn apply_binary<F, G>(op: Operator, left: Value, right: Value, num: &F, test: &G) -> (r: Result<Value, TypeError>) where
    F: Fn(NumberOp) -> u64,
    G: Fn(NumberTest) -> bool,

    requires
        forall|op: NumberOp| num.requires((op,)),
        forall|t: NumberTest| test.requires((t,)),
    ensures
        forall|n: spec_fn(NumberOp) -> u64, t: spec_fn(NumberTest) -> bool|
            computes(*num, n) && decides(*test, t) ==> result_view(r) == #[trigger] binary_value(
                op,
                left@,
                right@,
                n,
                t,
            ),
{
    match (op, left, right) {
        (Operator::Equal, l, r) => Ok(Value::Bool(values_equal_exec(&l, &r, test))),
        (Operator::NotEqual, l, r) => Ok(Value::Bool(!values_equal_exec(&l, &r, test))),
        (op, Value::Number(a), Value::Number(b)) => Ok(apply_numeric(op, a, b, num, test)),
        (Operator::Plus, Value::String(a), Value::String(b)) => Ok(Value::String(a.concat(b.as_str()))),
        (op, _, _) => Err(TypeError::Operands(op)),
    }
}

} // verus!
