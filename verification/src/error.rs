//! The ways in which the evaluation of a formula fails.

use vstd::prelude::*;

verus! {

/// Why a formula has no value. Positions count tokens from 1, in reading
/// order.
#[derive(Clone, Debug, PartialEq, Eq)]
pub enum EvalError {
    /// The token at this position is not a number, and fewer than two
    /// operands were on the stack for it.
    StackUnderflow(usize),
    /// The token at this position, with this text, is neither a number nor an
    /// operator.
    UnknownToken(String, usize),
    /// The operator at this position is `/` or `%` and its right-hand operand
    /// is zero.
    DivisionByZero(usize),
    /// The result of the operator at this position does not fit in 32 bits.
    Overflow(usize),
    /// The formula ended with this many operands on the stack, more than one.
    TrailingOperands(usize),
    /// The formula ended with no operand on the stack.
    EmptyStack,
}

/// The mathematical value of an `EvalError`.
pub enum ErrorView {
    StackUnderflow(nat),
    UnknownToken(Seq<char>, nat),
    DivisionByZero(nat),
    Overflow(nat),
    TrailingOperands(nat),
    EmptyStack,
}

impl View for EvalError {
    type V = ErrorView;

    open spec fn view(&self) -> ErrorView {
        match self {
            EvalError::StackUnderflow(p) => ErrorView::StackUnderflow(*p as nat),
            EvalError::UnknownToken(text, p) => ErrorView::UnknownToken(text@, *p as nat),
            EvalError::DivisionByZero(p) => ErrorView::DivisionByZero(*p as nat),
            EvalError::Overflow(p) => ErrorView::Overflow(*p as nat),
            EvalError::TrailingOperands(n) => ErrorView::TrailingOperands(*n as nat),
            EvalError::EmptyStack => ErrorView::EmptyStack,
        }
    }
}

impl ErrorView {
    /// The position of the token at which the fault was found, for the faults
    /// that a single token causes.
    pub open spec fn position(self) -> Option<nat> {
        match self {
            ErrorView::StackUnderflow(p) => Some(p),
            ErrorView::UnknownToken(_, p) => Some(p),
            ErrorView::DivisionByZero(p) => Some(p),
            ErrorView::Overflow(p) => Some(p),
            ErrorView::TrailingOperands(_) => None,
            ErrorView::EmptyStack => None,
        }
    }
}

impl EvalError {
    /// The position of the token at which the fault was found; `None` for the
    /// faults that show only once the whole formula is read.
    pub fn position(&self) -> (p: Option<usize>)
        ensures
            match p {
                Some(v) => self@.position() == Some(v as nat),
                None => self@.position() is None,
            },
    {
        match self {
            EvalError::StackUnderflow(p) => Some(*p),
            EvalError::UnknownToken(_, p) => Some(*p),
            EvalError::DivisionByZero(p) => Some(*p),
            EvalError::Overflow(p) => Some(*p),
            EvalError::TrailingOperands(_) => None,
            EvalError::EmptyStack => None,
        }
    }
}

/// The mathematical value of what an evaluation returns.
pub open spec fn result_view(r: Result<i32, EvalError>) -> Result<i32, ErrorView> {
    match r {
        Ok(v) => Ok(v),
        Err(e) => Err(e@),
    }
}

} // verus!
