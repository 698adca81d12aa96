use rlox::expression::Operator;
use rlox::interpret::{Interpreter, NumberOp, NumberTest, TypeError, Value, ValueType};
use rlox::parse::Parser;
use rlox::scanner::scan_tokens;

fn double(bits: u64) -> f64 {
    f64::from_bits(bits)
}

fn arithmetic(op: NumberOp) -> u64 {
    let result = match op {
        NumberOp::Parse(digits) => digits.parse::<f64>().unwrap(),
        NumberOp::Negate(a) => -double(a),
        NumberOp::Add(a, b) => double(a) + double(b),
        NumberOp::Subtract(a, b) => double(a) - double(b),
        NumberOp::Multiply(a, b) => double(a) * double(b),
        NumberOp::Divide(a, b) => double(a) / double(b),
    };
    result.to_bits()
}

fn comparison(test: NumberTest) -> bool {
    match test {
        NumberTest::Greater(a, b) => double(a) > double(b),
        NumberTest::GreaterEqual(a, b) => double(a) >= double(b),
        NumberTest::Less(a, b) => double(a) < double(b),
        NumberTest::Equal(a, b) => double(a) == double(b),
    }
}

fn eval(line: &str) -> Result<Value, TypeError> {
    let (tokens, _) = scan_tokens(line);
    let expr = Parser::new(tokens).parse().unwrap();
    Interpreter::default().evaluate(&expr, &arithmetic, &comparison)
}

fn number(value: Value) -> f64 {
    match value {
        Value::Number(bits) => double(bits),
        other => panic!("not a number: {:?}", other),
    }
}

#[test]
fn addition() {
    assert_eq!(3.0, number(eval("1+2").unwrap()));
    assert_eq!(Value::String("foobar".to_string()), eval(r#""foo" + "bar""#).unwrap());
}

#[test]
fn subtraction() {
    assert_eq!(-1.0, number(eval("1-2").unwrap()));
    assert!(eval(r#""foo" - "bar""#).is_err());
}

#[test]
fn grouping() {
    assert_eq!(4.0, number(eval("5 - (2 - 1)").unwrap()));
    assert_eq!(2.0, number(eval("(5 - 2) - 1").unwrap()));
}

#[test]
fn comapre_nans() {
    assert_eq!(Value::Bool(false), eval("(0 / 0) == (0 / 0)").unwrap());
}

#[test]
fn truthness() {
    assert_eq!(Value::Bool(false), eval("nil == true").unwrap());

    assert_eq!(Value::Bool(false), eval("false").unwrap());
    assert_eq!(Value::Bool(true), eval("true").unwrap());

    assert_eq!(Value::Bool(true), eval("1 == true").unwrap());
    assert_eq!(Value::Bool(true), eval("1 == true").unwrap());
    assert_eq!(Value::Bool(true), eval("0 == true").unwrap());

    assert_eq!(Value::Bool(true), eval(r#""" == true"#).unwrap());
    assert_eq!(Value::Bool(true), eval(r#""foobar" == true"#).unwrap());
}

#[test]
fn unary() {
    assert_eq!(Value::Bool(false), eval("!true").unwrap());
    assert_eq!(Value::Bool(true), eval("!false").unwrap());
    assert_eq!(-5.0, number(eval("-5").unwrap()));
    assert_eq!(5.0, number(eval("----5").unwrap()));
    assert_eq!(Value::Bool(false), eval(r#"!"string""#).unwrap());
}

#[test]
fn left_associative_subtraction() {
    assert_eq!(2.0, number(eval("5-2-1").unwrap()));
    assert_eq!(4.0, number(eval("5-(2-1)").unwrap()));
    assert_eq!(2.0, number(eval("8/2/2").unwrap()));
}

#[test]
fn precedence() {
    assert_eq!(7.0, number(eval("1 + 2 * 3").unwrap()));
    assert_eq!(9.0, number(eval("(1 + 2) * 3").unwrap()));
    assert_eq!(Value::Bool(true), eval("1 + 1 == 2").unwrap());
    assert_eq!(Value::Bool(true), eval("1 < 2 == true").unwrap());
}

#[test]
fn division_by_zero() {
    assert_eq!(f64::INFINITY, number(eval("1 / 0").unwrap()));
    assert_eq!(f64::NEG_INFINITY, number(eval("-1 / 0").unwrap()));
    assert!(number(eval("0 / 0").unwrap()).is_nan());
}

#[test]
fn comparisons() {
    assert_eq!(Value::Bool(true), eval("2 > 1").unwrap());
    assert_eq!(Value::Bool(false), eval("1 > 1").unwrap());
    assert_eq!(Value::Bool(true), eval("1 >= 1").unwrap());
    assert_eq!(Value::Bool(true), eval("1 < 2").unwrap());
    assert_eq!(Value::Bool(false), eval("(0/0) < (0/0)").unwrap());
    assert_eq!(Value::Bool(true), eval("1 != 2").unwrap());
    assert_eq!(Value::Bool(false), eval("\"a\" != \"a\"").unwrap());
}

#[test]
fn less_equal_answers_not_equal() {
    assert_eq!(Value::Bool(true), eval("1 <= 2").unwrap());
    assert_eq!(Value::Bool(true), eval("2 <= 1").unwrap());
    assert_eq!(Value::Bool(false), eval("2 <= 2").unwrap());
}

#[test]
fn equality_across_types() {
    assert_eq!(Value::Bool(true), eval("nil == nil").unwrap());
    assert_eq!(Value::Bool(false), eval("nil == 0").unwrap());
    assert_eq!(Value::Bool(false), eval("\"1\" == 1").unwrap());
    assert_eq!(Value::Bool(true), eval("false == nil").unwrap());
    assert_eq!(Value::Bool(true), eval("\"abc\" == \"abc\"").unwrap());
    assert_eq!(Value::Bool(false), eval("\"abc\" == \"abd\"").unwrap());
}

#[test]
fn type_errors() {
    assert_eq!(Err(TypeError::Operands(Operator::Minus)), eval(r#""foo" - "bar""#));
    assert_eq!(Err(TypeError::Negate(ValueType::Nil)), eval("-nil"));
    assert_eq!(Err(TypeError::Negate(ValueType::Bool)), eval("-true"));
    assert_eq!(Err(TypeError::Negate(ValueType::String)), eval("-\"x\""));
    assert_eq!(Err(TypeError::Operands(Operator::Plus)), eval("1 + \"x\""));
    assert_eq!(Err(TypeError::Operands(Operator::Greater)), eval("nil > 1"));
    assert_eq!(Err(TypeError::Operands(Operator::GreaterEqual)), eval("true >= 1"));
    assert_eq!(Err(TypeError::Operands(Operator::Less)), eval("\"a\" < \"b\""));
    assert_eq!(Err(TypeError::Operands(Operator::LessEqual)), eval("1 <= nil"));
    assert_eq!(Err(TypeError::Operands(Operator::Divide)), eval("1 / true"));
    assert_eq!(Err(TypeError::Operands(Operator::Multiply)), eval("\"a\" * 2"));
}

#[test]
fn first_error_ends_evaluation() {
    assert_eq!(Err(TypeError::Negate(ValueType::Nil)), eval("-nil + (1 - \"x\")"));
}

#[test]
fn truthiness_of_values() {
    assert!(!Value::Nil.is_truthy());
    assert!(!Value::Bool(false).is_truthy());
    assert!(Value::Bool(true).is_truthy());
    assert!(Value::Number(0.0f64.to_bits()).is_truthy());
    assert!(Value::String(String::new()).is_truthy());
}

#[test]
fn evaluating_twice_gives_the_same_value() {
    let (tokens, _) = scan_tokens("\"a\" + \"b\" == \"ab\" != (1 / 3 > 0.3)");
    let expr = Parser::new(tokens).parse().unwrap();
    let mut interpreter = Interpreter::default();
    let first = interpreter.evaluate(&expr, &arithmetic, &comparison);
    let second = interpreter.evaluate(&expr, &arithmetic, &comparison);
    assert_eq!(first, second);
    assert_eq!(Ok(Value::Bool(false)), first);
}

#[test]
fn literal_digits_are_read_by_the_arithmetic() {
    assert_eq!(45.67, number(eval("45.67").unwrap()));
    assert_eq!(0.1 + 0.2, number(eval("0.1 + 0.2").unwrap()));
}
