// Tests of the evaluator's individual stages: splitting, operand checks,
// division-by-zero decisions, the final rules, and the form state.

use calculator::check_operands;
use calculator::finish_result;
use calculator::infinite_bits;
use calculator::nan_bits;
use calculator::op_of_char;
use calculator::plan_operation;
use calculator::sign_negative_bits;
use calculator::split_expression;
use calculator::trim_str;
use calculator::zero_bits;
use calculator::CalculatorApp;
use calculator::Op;
use calculator::EPSILON_BITS;
use calculator::SNAP_VALUE_BITS;

fn calculate(input: &str) -> Result<f64, String> {
    let parts = match split_expression(input) {
        Ok(p) => p,
        Err(e) => return Err(e.message()),
    };
    let op = match op_of_char(parts.op) {
        Ok(o) => o,
        Err(e) => return Err(e.message()),
    };
    let first = parts.first.as_str().parse::<f64>().ok().map(f64::to_bits);
    let second = parts.second.as_str().parse::<f64>().ok().map(f64::to_bits);
    let (a_bits, b_bits) = match check_operands(first, second) {
        Ok(t) => t,
        Err(e) => return Err(e.message()),
    };
    if let Err(e) = plan_operation(op, a_bits, b_bits) {
        return Err(e.message());
    }
    let a = f64::from_bits(a_bits);
    let b = f64::from_bits(b_bits);
    let result = match op {
        Op::Add => a + b,
        Op::Sub => a - b,
        Op::Mul => a * b,
        Op::Div => a / b,
    };
    let diff = (result - 1e-14).to_bits();
    match finish_result(result.to_bits(), diff) {
        Ok(bits) => Ok(f64::from_bits(bits)),
        Err(e) => Err(e.message()),
    }
}

#[test]
fn split_reports_parts() {
    let p = split_expression("5+3").unwrap();
    assert_eq!(p.first, "5");
    assert_eq!(p.op, '+');
    assert_eq!(p.second, "3");

    let p = split_expression("  1e3 * 2  ").unwrap();
    assert_eq!(p.first, "1e3");
    assert_eq!(p.op, '*');
    assert_eq!(p.second, "2");

    let p = split_expression("-5 - -3").unwrap();
    assert_eq!(p.first, "-5");
    assert_eq!(p.op, '-');
    assert_eq!(p.second, "-3");

    // only the first operator splits; the rest stays in the second part
    let p = split_expression("5 + 3 + 2").unwrap();
    assert_eq!(p.first, "5");
    assert_eq!(p.op, '+');
    assert_eq!(p.second, "3 + 2");
}

#[test]
fn split_rejects_empty_and_operatorless_input() {
    assert_eq!(split_expression("").unwrap_err().message(), "Empty input");
    assert_eq!(
        split_expression(" \t\n ").unwrap_err().message(),
        "Empty input"
    );
    assert_eq!(
        split_expression("5 3").unwrap_err().message(),
        "No operator found"
    );
    assert_eq!(
        split_expression("5 % 3").unwrap_err().message(),
        "No operator found"
    );
}

#[test]
fn exponent_context_swallows_unspaced_operator() {
    // inside an exponent context a `+` is read as the exponent's sign, and
    // digits do not end the context: no operator is found here
    assert_eq!(calculate("1e3+2e3"), Err("No operator found".to_string()));
    // a space ends the context, so the same expression with spaces works
    assert_eq!(calculate("1e3 + 2e3"), Ok(3000.0));
}

#[test]
fn trim_removes_whitespace_at_both_ends() {
    assert_eq!(trim_str(" \t 5 + 3 \n "), "5 + 3");
    assert_eq!(trim_str("5+3"), "5+3");
    assert_eq!(trim_str("   "), "");
    assert_eq!(trim_str(""), "");
}

#[test]
fn unicode_whitespace_is_trimmed() {
    assert_eq!(calculate("\u{A0}5 + 3\u{A0}"), Ok(8.0));
    assert_eq!(calculate("\u{2003}5\u{2003}+\u{2003}3\u{2003}"), Ok(8.0));
}

#[test]
fn non_ascii_operands_are_rejected_cleanly() {
    assert_eq!(
        calculate("\u{E9} + 3"),
        Err("Invalid first number".to_string())
    );
    assert_eq!(
        calculate("5 + \u{3BC}"),
        Err("Invalid second number".to_string())
    );
}

#[test]
fn every_error_has_its_input() {
    assert_eq!(calculate(" "), Err("Empty input".to_string()));
    assert_eq!(calculate("5"), Err("No operator found".to_string()));
    assert_eq!(
        calculate("abc + 3"),
        Err("Invalid first number".to_string())
    );
    assert_eq!(
        calculate("5 + abc"),
        Err("Invalid second number".to_string())
    );
    assert_eq!(
        calculate("1e999 + 1"),
        Err("First number is too large or too small".to_string())
    );
    assert_eq!(
        calculate("1 + 1e999"),
        Err("Second number is too large or too small".to_string())
    );
    assert_eq!(
        calculate("NaN + 5"),
        Err("NaN is not a valid number".to_string())
    );
    assert_eq!(calculate("0 / 0"), Err("Division by zero".to_string()));
    assert_eq!(
        calculate("5 / 0"),
        Err("Result is too large (infinity)".to_string())
    );
    assert_eq!(
        calculate("-5 / 0"),
        Err("Result is too small (negative infinity)".to_string())
    );
    assert_eq!(
        calculate("1e308 * 1e308"),
        Err("Result is too large or too small".to_string())
    );
    // no scan reports such a character, but the mapping still refuses it
    assert_eq!(op_of_char('%').unwrap_err().message(), "Invalid operator");
}

#[test]
fn operand_errors_come_in_order() {
    // the first operand's failure wins over the second's
    assert_eq!(
        calculate("abc + def"),
        Err("Invalid first number".to_string())
    );
    assert_eq!(
        calculate("1e999 + def"),
        Err("First number is too large or too small".to_string())
    );
    // an infinite second operand is reported before a NaN first operand
    assert_eq!(
        calculate("NaN + 1e999"),
        Err("Second number is too large or too small".to_string())
    );
}

#[test]
fn snap_constants_hold_their_values() {
    assert_eq!(f64::from_bits(SNAP_VALUE_BITS), 1e-14);
    assert_eq!(EPSILON_BITS, f64::EPSILON.to_bits());
}

#[test]
fn result_near_snap_value_is_clamped() {
    let r = calculate("0.0000001 * 0.0000001").unwrap();
    assert_eq!(r.to_bits(), SNAP_VALUE_BITS);
    assert_eq!(r, 1e-14);
}

#[test]
fn bit_classification_matches_the_values() {
    let samples = [
        0.0,
        -0.0,
        1.5,
        -2.5,
        1e-14,
        f64::MAX,
        f64::MIN,
        f64::MIN_POSITIVE,
        f64::MIN_POSITIVE / 4.0,
        f64::EPSILON,
        f64::INFINITY,
        f64::NEG_INFINITY,
        f64::NAN,
        -f64::NAN,
    ];
    for v in samples {
        let b = v.to_bits();
        assert_eq!(infinite_bits(b), v.is_infinite(), "infinite: {}", v);
        assert_eq!(nan_bits(b), v.is_nan(), "nan: {}", v);
        assert_eq!(zero_bits(b), v == 0.0, "zero: {}", v);
        assert_eq!(
            sign_negative_bits(b),
            v.is_sign_negative(),
            "sign: {}",
            v
        );
    }
}

#[test]
fn finite_operands_give_the_ieee_result() {
    // for finite operands and a nonzero divisor the evaluator returns the
    // machine's own result, unless it is infinite or in the clamp window
    let values: [f64; 11] = [
        0.0, 1.0, -1.0, 0.5, 3.25, -7.125, 1e10, -2.5e-7, 12345.6789, 1e300, -1e300,
    ];
    let ops = ['+', '-', '*', '/'];
    for a in values {
        for b in values {
            for op in ops {
                if op == '/' && b == 0.0 {
                    continue;
                }
                let expr = format!("{} {} {}", a, op, b);
                let expected: f64 = match op {
                    '+' => a + b,
                    '-' => a - b,
                    '*' => a * b,
                    _ => a / b,
                };
                let got = calculate(&expr);
                if expected.is_infinite() {
                    assert_eq!(
                        got,
                        Err("Result is too large or too small".to_string()),
                        "{}",
                        expr
                    );
                } else if (expected - 1e-14).abs() < f64::EPSILON {
                    assert_eq!(got, Ok(1e-14), "{}", expr);
                } else {
                    assert_eq!(got, Ok(expected), "{}", expr);
                }
            }
        }
    }
}

#[test]
fn form_starts_empty() {
    let app = CalculatorApp::default();
    assert_eq!(app.input, "");
    assert_eq!(app.result, "");
    assert_eq!(app.error, "");
}

#[test]
fn form_records_outcomes() {
    let mut app = CalculatorApp::default();
    app.input = "5+3".to_string();

    let outcome = calculate(&app.input).map(|v| format!("{}", v));
    assert_eq!(outcome, Ok("8".to_string()));
    app.calculate(outcome);
    assert_eq!(app.input, "5+3");
    assert_eq!(app.result, "Result: 8");
    assert_eq!(app.error, "");

    app.input = " ".to_string();
    let outcome = calculate(&app.input).map(|v| format!("{}", v));
    app.calculate(outcome);
    assert_eq!(app.result, "");
    assert_eq!(app.error, "Error: Empty input");
}
