use calculator::calculation::{calculate, Calculation, DivisionByZero};
use calculator::operand::Operand;
use calculator::operator::Operator;

fn operand(value: f64) -> Operand {
    Operand::from_bits(value.to_bits())
}

fn evaluate(calculation: &Calculation) -> f64 {
    let a = f64::from_bits(calculation.a().to_bits());
    let b = f64::from_bits(calculation.b().to_bits());
    match calculation.op() {
        Operator::Add => a + b,
        Operator::Subtract => a - b,
        Operator::Multiply => a * b,
        Operator::Divide => a / b,
    }
}

fn compute(a: f64, b: f64, word: &str) -> Result<f64, DivisionByZero> {
    let op = Operator::from_word(word).unwrap();
    calculate(operand(a), operand(b), op).map(|calculation| evaluate(&calculation))
}

#[test]
fn four_and_two_under_each_operator() {
    assert_eq!(compute(4.0, 2.0, "+"), Ok(6.0));
    assert_eq!(compute(4.0, 2.0, "-"), Ok(2.0));
    assert_eq!(compute(4.0, 2.0, "*"), Ok(8.0));
    assert_eq!(compute(4.0, 2.0, "/"), Ok(2.0));
}

#[test]
fn division_by_zero_is_an_error_not_a_value() {
    assert_eq!(compute(5.0, 0.0, "/"), Err(DivisionByZero));
    assert_eq!(calculate(operand(5.0), operand(0.0), Operator::Divide), Err(DivisionByZero));
}

#[test]
fn division_by_negative_zero_is_an_error() {
    assert_eq!(calculate(operand(5.0), operand(-0.0), Operator::Divide), Err(DivisionByZero));
    assert_eq!(calculate(operand(0.0), operand(-0.0), Operator::Divide), Err(DivisionByZero));
}

#[test]
fn zero_on_the_right_is_fine_where_nothing_divides() {
    assert_eq!(compute(5.0, 0.0, "+"), Ok(5.0));
    assert_eq!(compute(5.0, 0.0, "-"), Ok(5.0));
    assert_eq!(compute(5.0, 0.0, "*"), Ok(0.0));
}

#[test]
fn zero_on_the_left_divides() {
    assert_eq!(compute(0.0, 5.0, "/"), Ok(0.0));
}

#[test]
fn only_exact_zero_is_refused() {
    assert!(calculate(operand(1.0), operand(f64::MIN_POSITIVE), Operator::Divide).is_ok());
    assert!(calculate(operand(1.0), operand(5e-324), Operator::Divide).is_ok());
    assert!(calculate(operand(1.0), operand(-5e-324), Operator::Divide).is_ok());
    assert!(calculate(operand(1.0), operand(1e-17), Operator::Divide).is_ok());
    assert!(calculate(operand(1.0), operand(f64::NAN), Operator::Divide).is_ok());
    assert!(calculate(operand(1.0), operand(f64::INFINITY), Operator::Divide).is_ok());
}

#[test]
fn calculation_keeps_what_it_was_formed_from() {
    let calculation = calculate(operand(1.5), operand(-2.0), Operator::Multiply).unwrap();
    assert_eq!(calculation.a(), operand(1.5));
    assert_eq!(calculation.b(), operand(-2.0));
    assert_eq!(calculation.op(), Operator::Multiply);
}

#[test]
fn operand_is_its_bits() {
    assert_eq!(Operand::from_bits(0x4014_0000_0000_0000).to_bits(), 5.0_f64.to_bits());
    assert_eq!(operand(5.0).bits, 0x4014_0000_0000_0000);
}

#[test]
fn operand_zero_has_two_encodings() {
    assert!(operand(0.0).is_exactly_zero());
    assert!(operand(-0.0).is_exactly_zero());
    assert!(Operand::from_bits(0).is_exactly_zero());
    assert!(Operand::from_bits(0x8000_0000_0000_0000).is_exactly_zero());
    assert!(!Operand::from_bits(1).is_exactly_zero());
    assert!(!Operand::from_bits(0x8000_0000_0000_0001).is_exactly_zero());
    assert!(!operand(5.0).is_exactly_zero());
    assert!(!operand(f64::NAN).is_exactly_zero());
    assert!(!operand(f64::EPSILON / 2.0).is_exactly_zero());
}
