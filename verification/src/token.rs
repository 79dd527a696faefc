//! Tokens: what a piece of text between whitespace stands for.

use vstd::prelude::*;
use crate::arith::Op;
use crate::number::{literal_value, parse_literal};

verus! {

/// A lexical unit of a formula.
#[derive(Clone, Debug, PartialEq, Eq)]
pub enum Token {
    /// An integer literal, with its value.
    Operand(i32),
    /// One of the operators `+ - * / %`.
    Operator(Op),
    /// Text that is neither; it carries the text itself.
    Unknown(String),
}

/// The mathematical value of a `Token`.
pub enum TokenView {
    Operand(i32),
    Operator(Op),
    Unknown(Seq<char>),
}

impl View for Token {
    type V = TokenView;

    open spec fn view(&self) -> TokenView {
        match self {
            Token::Operand(v) => TokenView::Operand(*v),
            Token::Operator(op) => TokenView::Operator(*op),
            Token::Unknown(text) => TokenView::Unknown(text@),
        }
    }
}

/// The operator that `text` spells, if it spells one.
pub open spec fn operator_of(text: Seq<char>) -> Option<Op> {
    if text == seq!['+'] {
        Some(Op::Add)
    } else if text == seq!['-'] {
        Some(Op::Sub)
    } else if text == seq!['*'] {
        Some(Op::Mul)
    } else if text == seq!['/'] {
        Some(Op::Div)
    } else if text == seq!['%'] {
        Some(Op::Rem)
    } else {
        None
    }
}

/// The token that `text` stands for: an operand where it is a literal that
/// fits in 32 bits, else an operator where it spells one, else unknown.
pub open spec fn token_of(text: Seq<char>) -> TokenView {
    match literal_value(text) {
        Some(v) => TokenView::Operand(v as i32),
        None => match operator_of(text) {
            Some(op) => TokenView::Operator(op),
            None => TokenView::Unknown(text),
        },
    }
}

/// Reads `text` as an operator.
pub fn parse_operator(text: &str) -> (r: Option<Op>)
    ensures
        r == operator_of(text@),
{
    if text.unicode_len() != 1 {
        return None;
    }
    let c = text.get_char(0);
    assert(text@ == seq![c]);
    if c == '+' {
        Some(Op::Add)
    } else if c == '-' {
        Some(Op::Sub)
    } else if c == '*' {
        Some(Op::Mul)
    } else if c == '/' {
        Some(Op::Div)
    } else if c == '%' {
        Some(Op::Rem)
    } else {
        None
    }
}

/// Tells what `text` stands for.
pub fn classify(text: &str) -> (t: Token)
    ensures
        t@ == token_of(text@),
{
    match parse_literal(text) {
        Some(v) => Token::Operand(v),
        None => match parse_operator(text) {
            Some(op) => Token::Operator(op),
            None => Token::Unknown(text.to_owned()),
        },
    }
}

} // verus!
