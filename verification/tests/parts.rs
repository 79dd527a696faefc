use rpn::arith::{apply, ArithError, Op};
use rpn::error::EvalError;
use rpn::lexer::{is_whitespace, to_chars, tokenize};
use rpn::machine::{finish, step, take_two};
use rpn::number::parse_literal;
use rpn::token::{classify, parse_operator, Token};

#[test]
fn test_add() {
    assert_eq!(0, rpn::arith::add(0, 0));
    assert_eq!(2, rpn::arith::add(1, 1));
    assert_eq!(5, rpn::arith::add(2, 3));
}

#[test]
fn assert_sample() {
    assert!(true);
    assert_eq!(true, true);
    assert_ne!(true, false);
}

#[test]
fn add_reaches_the_bounds() {
    assert_eq!(rpn::arith::add(i32::MAX, 0), i32::MAX);
    assert_eq!(rpn::arith::add(i32::MIN, 0), i32::MIN);
    assert_eq!(rpn::arith::add(i32::MAX, i32::MIN), -1);
    assert_eq!(rpn::arith::add(-3, 2), -1);
}

#[test]
fn apply_each_operator() {
    assert_eq!(apply(Op::Add, 2, 3), Ok(5));
    assert_eq!(apply(Op::Sub, 2, 3), Ok(-1));
    assert_eq!(apply(Op::Mul, 2, 3), Ok(6));
    assert_eq!(apply(Op::Div, 6, 3), Ok(2));
    assert_eq!(apply(Op::Rem, 5, 2), Ok(1));
}

#[test]
fn apply_faults() {
    assert_eq!(apply(Op::Div, 1, 0), Err(ArithError::DivisionByZero));
    assert_eq!(apply(Op::Rem, 1, 0), Err(ArithError::DivisionByZero));
    assert_eq!(apply(Op::Div, i32::MIN, 0), Err(ArithError::DivisionByZero));
    assert_eq!(apply(Op::Add, i32::MAX, 1), Err(ArithError::Overflow));
    assert_eq!(apply(Op::Sub, i32::MIN, 1), Err(ArithError::Overflow));
    assert_eq!(apply(Op::Mul, i32::MIN, -1), Err(ArithError::Overflow));
    assert_eq!(apply(Op::Div, i32::MIN, -1), Err(ArithError::Overflow));
    assert_eq!(apply(Op::Rem, i32::MIN, -1), Ok(0));
    assert_eq!(apply(Op::Rem, 17, -1), Ok(0));
}

#[test]
fn apply_signs() {
    assert_eq!(apply(Op::Div, -7, 2), Ok(-3));
    assert_eq!(apply(Op::Div, 7, -2), Ok(-3));
    assert_eq!(apply(Op::Div, -7, -2), Ok(3));
    assert_eq!(apply(Op::Div, 0, -2), Ok(0));
    assert_eq!(apply(Op::Rem, -7, 2), Ok(-1));
    assert_eq!(apply(Op::Rem, 7, -2), Ok(1));
    assert_eq!(apply(Op::Rem, -7, -2), Ok(-1));
    assert_eq!(apply(Op::Rem, -8, 2), Ok(0));
    assert_eq!(apply(Op::Div, i32::MIN, 1), Ok(i32::MIN));
    assert_eq!(apply(Op::Div, i32::MIN, 2), Ok(-1073741824));
    assert_eq!(apply(Op::Rem, i32::MIN, 3), Ok(-2));
}

#[test]
fn whitespace_characters() {
    for c in [' ', '\t', '\n', '\u{b}', '\u{c}', '\r', '\u{85}', '\u{a0}', '\u{1680}',
        '\u{2000}', '\u{2005}', '\u{200a}', '\u{2028}', '\u{2029}', '\u{202f}', '\u{205f}',
        '\u{3000}']
    {
        assert!(is_whitespace(c));
        assert!(c.is_whitespace());
    }
    for c in ['a', '0', '+', '\u{8}', '\u{e}', '\u{200b}', '\u{180e}', '\u{feff}', '\u{1f}'] {
        assert!(!is_whitespace(c));
        assert!(!c.is_whitespace());
    }
}

#[test]
fn whitespace_agrees_with_the_standard_library() {
    let mut u: u32 = 0;
    while u <= 0x11000 {
        if let Some(c) = char::from_u32(u) {
            assert_eq!(is_whitespace(c), c.is_whitespace());
        }
        u += 1;
    }
}

#[test]
fn characters_of_a_string() {
    assert_eq!(to_chars(""), Vec::<char>::new());
    assert_eq!(to_chars("a b"), vec!['a', ' ', 'b']);
    assert_eq!(to_chars("é\u{3000}+"), vec!['é', '\u{3000}', '+']);
}

#[test]
fn tokenize_splits_on_runs_of_whitespace() {
    assert_eq!(tokenize(""), Vec::<String>::new());
    assert_eq!(tokenize("   "), Vec::<String>::new());
    assert_eq!(tokenize("2 3 +"), vec!["2", "3", "+"]);
    assert_eq!(tokenize("  12\t\t-3 \n *  "), vec!["12", "-3", "*"]);
    assert_eq!(tokenize("abc"), vec!["abc"]);
    assert_eq!(tokenize("é\u{3000}ü x"), vec!["é", "ü", "x"]);
}

#[test]
fn tokenize_agrees_with_the_standard_library() {
    for s in ["", " ", "a", " a", "a ", "1 2 +", "\t1\u{a0}\u{a0}22 \u{2003}+\r\n", "x\u{200b}y z"] {
        let expected: Vec<String> = s.split_whitespace().map(|t| t.to_string()).collect();
        assert_eq!(tokenize(s), expected);
    }
}

#[test]
fn literals() {
    assert_eq!(parse_literal("0"), Some(0));
    assert_eq!(parse_literal("42"), Some(42));
    assert_eq!(parse_literal("-42"), Some(-42));
    assert_eq!(parse_literal("+42"), Some(42));
    assert_eq!(parse_literal("-0"), Some(0));
    assert_eq!(parse_literal("0000000000000000000000012"), Some(12));
    assert_eq!(parse_literal("2147483647"), Some(i32::MAX));
    assert_eq!(parse_literal("-2147483648"), Some(i32::MIN));
}

#[test]
fn not_literals() {
    for s in ["", "+", "-", "--1", "+-1", "1-", "1 ", " 1", "1_0", "0x10", "1.0", "१", "2147483648",
        "-2147483649", "99999999999999999999999", "a", "1a"]
    {
        assert_eq!(parse_literal(s), None);
    }
}

#[test]
fn literals_agree_with_the_standard_library() {
    for s in ["", "+", "-", "7", "+7", "-7", "007", "-007", "2147483647", "2147483648",
        "-2147483648", "-2147483649", "12345678901", "1e3", "٣", "+0", "-0", "++1"]
    {
        assert_eq!(parse_literal(s), s.parse::<i32>().ok());
    }
}

#[test]
fn operators() {
    assert_eq!(parse_operator("+"), Some(Op::Add));
    assert_eq!(parse_operator("-"), Some(Op::Sub));
    assert_eq!(parse_operator("*"), Some(Op::Mul));
    assert_eq!(parse_operator("/"), Some(Op::Div));
    assert_eq!(parse_operator("%"), Some(Op::Rem));
    assert_eq!(parse_operator(""), None);
    assert_eq!(parse_operator("++"), None);
    assert_eq!(parse_operator("^"), None);
    assert_eq!(parse_operator("＋"), None);
}

#[test]
fn classification() {
    assert_eq!(classify("12"), Token::Operand(12));
    assert_eq!(classify("-12"), Token::Operand(-12));
    assert_eq!(classify("-"), Token::Operator(Op::Sub));
    assert_eq!(classify("+"), Token::Operator(Op::Add));
    assert_eq!(classify("x"), Token::Unknown("x".to_string()));
    assert_eq!(classify("2147483648"), Token::Unknown("2147483648".to_string()));
}

#[test]
fn step_pushes_and_reduces() {
    let mut stack: Vec<i32> = Vec::new();
    assert_eq!(step(&mut stack, &Token::Operand(7), 1), Ok(()));
    assert_eq!(step(&mut stack, &Token::Operand(2), 2), Ok(()));
    assert_eq!(stack, vec![7, 2]);
    assert_eq!(step(&mut stack, &Token::Operator(Op::Sub), 3), Ok(()));
    assert_eq!(stack, vec![5]);
}

#[test]
fn step_faults_leave_the_operands_off() {
    let mut stack = vec![1];
    assert_eq!(
        step(&mut stack, &Token::Operator(Op::Add), 2),
        Err(EvalError::StackUnderflow(2))
    );
    assert_eq!(stack, Vec::<i32>::new());

    let mut stack = vec![9, 1, 2];
    assert_eq!(
        step(&mut stack, &Token::Unknown("?".to_string()), 4),
        Err(EvalError::UnknownToken("?".to_string(), 4))
    );
    assert_eq!(stack, vec![9]);

    let mut stack = vec![9, 1, 0];
    assert_eq!(
        step(&mut stack, &Token::Operator(Op::Div), 4),
        Err(EvalError::DivisionByZero(4))
    );
    assert_eq!(stack, vec![9]);

    let mut stack = vec![i32::MAX, 1];
    assert_eq!(
        step(&mut stack, &Token::Operator(Op::Add), 3),
        Err(EvalError::Overflow(3))
    );
    assert_eq!(stack, Vec::<i32>::new());

    let mut stack: Vec<i32> = Vec::new();
    assert_eq!(
        step(&mut stack, &Token::Unknown("?".to_string()), 1),
        Err(EvalError::StackUnderflow(1))
    );
}

#[test]
fn take_two_gives_left_then_right() {
    let mut stack = vec![1, 2, 3];
    assert_eq!(take_two(&mut stack, 9), Ok((2, 3)));
    assert_eq!(stack, vec![1]);
    assert_eq!(take_two(&mut stack, 9), Err(EvalError::StackUnderflow(9)));
    assert_eq!(stack, Vec::<i32>::new());
}

#[test]
fn finish_reads_the_stack() {
    assert_eq!(finish(&vec![4]), Ok(4));
    assert_eq!(finish(&vec![]), Err(EvalError::EmptyStack));
    assert_eq!(finish(&vec![4, 5]), Err(EvalError::TrailingOperands(2)));
}

#[test]
fn tokens_are_words() {
    for s in ["  a\tbc \u{2003} d ", "1 2 +", "\n\n", "x"] {
        for token in tokenize(s) {
            assert!(!token.is_empty());
            assert!(token.chars().all(|c| !is_whitespace(c)));
        }
    }
}

#[test]
fn quotient_and_remainder_give_the_dividend_back() {
    for x in [-9, -8, -7, -1, 0, 1, 7, 8, 9, i32::MAX, i32::MIN + 1] {
        for y in [-4, -3, -1, 1, 3, 4] {
            let q = apply(Op::Div, x, y).unwrap() as i64;
            let r = apply(Op::Rem, x, y).unwrap() as i64;
            assert_eq!(x as i64, y as i64 * q + r);
            assert!(r.abs() < (y as i64).abs());
            assert!(r == 0 || (r < 0) == (x < 0));
        }
    }
}
