use rpn::calculator::RpnCalculator;
use rpn::error::EvalError;
use rpn::trace::TraceEntry;

fn entry(remaining: &[&str], stack: &[i32]) -> TraceEntry {
    TraceEntry {
        remaining: remaining.iter().map(|s| s.to_string()).collect(),
        stack: stack.to_vec(),
    }
}

#[test]
fn trace_has_one_entry_per_token() {
    let calc = RpnCalculator::new(true);
    let e = calc.evaluate_with_trace("2 3 +");
    assert_eq!(e.result, Ok(5));
    assert_eq!(
        e.trace,
        vec![
            entry(&["3", "+"], &[2]),
            entry(&["+"], &[2, 3]),
            entry(&[], &[5]),
        ]
    );
}

#[test]
fn trace_stops_before_the_failing_token() {
    let calc = RpnCalculator::new(true);
    let e = calc.evaluate_with_trace("2 3 + - 9");
    assert_eq!(e.result, Err(EvalError::StackUnderflow(4)));
    assert_eq!(e.trace.len(), 3);
    assert_eq!(e.trace[2], entry(&["-", "9"], &[5]));

    let e = calc.evaluate_with_trace("+ * 1 2");
    assert_eq!(e.result, Err(EvalError::StackUnderflow(1)));
    assert_eq!(e.trace.len(), 0);

    let e = calc.evaluate_with_trace("5 0 / 1");
    assert_eq!(e.result, Err(EvalError::DivisionByZero(3)));
    assert_eq!(e.trace.len(), 2);
}

#[test]
fn trace_is_complete_when_the_fault_shows_at_the_end() {
    let calc = RpnCalculator::new(true);
    let e = calc.evaluate_with_trace("2 3 4 +");
    assert_eq!(e.result, Err(EvalError::TrailingOperands(2)));
    assert_eq!(e.trace.len(), 4);
    assert_eq!(e.trace[3], entry(&[], &[2, 7]));

    let e = calc.evaluate_with_trace("");
    assert_eq!(e.result, Err(EvalError::EmptyStack));
    assert_eq!(e.trace.len(), 0);
}

#[test]
fn quiet_calculator_records_nothing() {
    let calc = RpnCalculator::new(false);
    let e = calc.evaluate_with_trace("2 3 +");
    assert_eq!(e.result, Ok(5));
    assert!(e.trace.is_empty());
}

#[test]
fn trace_does_not_change_the_result() {
    let quiet = RpnCalculator::new(false);
    let loud = RpnCalculator::new(true);
    for formula in ["1 2 +", "1 +", "", "1 2", "4 0 /", "1 2 x"] {
        assert_eq!(
            quiet.evaluate_with_trace(formula).result,
            loud.evaluate_with_trace(formula).result
        );
        assert_eq!(quiet.evaluate(formula), loud.evaluate(formula));
    }
}

#[test]
fn evaluate_tokens_takes_reading_order() {
    let calc = RpnCalculator::new(true);
    let tokens = vec!["7".to_string(), "2".to_string(), "-".to_string()];
    let e = calc.evaluate_tokens(&tokens);
    assert_eq!(e.result, Ok(5));
    assert_eq!(e.trace.len(), 3);
    assert_eq!(e.trace[0], entry(&["2", "-"], &[7]));
}

#[test]
fn stack_depth_follows_the_tokens() {
    let calc = RpnCalculator::new(true);
    let formula = "1 2 + 3 4 + * 5 6";
    let tokens: Vec<&str> = formula.split_whitespace().collect();
    let e = calc.evaluate_with_trace(formula);
    assert_eq!(e.result, Err(EvalError::TrailingOperands(3)));
    assert_eq!(e.trace.len(), tokens.len());
    let mut operators = 0;
    for (i, entry) in e.trace.iter().enumerate() {
        if ["+", "-", "*", "/", "%"].contains(&tokens[i]) {
            operators += 1;
        }
        assert_eq!(entry.stack.len(), i + 1 - 2 * operators);
        assert_eq!(entry.remaining.len(), tokens.len() - i - 1);
    }
}
