//! The stack machine: what one token does to the operand stack, and what the
//! stack says once the formula is read.

use vstd::prelude::*;
use crate::arith::{apply, apply_spec, ArithError};
use crate::error::{result_view, ErrorView, EvalError};
use crate::token::{token_of, Token, TokenView};

verus! {

/// What is left of `stack` once its two topmost operands, or as many as it
/// has of them, are taken off.
pub open spec fn without_top_two(stack: Seq<i32>) -> Seq<i32> {
    if stack.len() >= 2 {
        stack.take(stack.len() - 2)
    } else {
        Seq::empty()
    }
}

/// The stack that processing `token`, the token at `position`, makes of
/// `stack`, or the fault that stops the evaluation.
///
/// An operand is pushed. Any other token takes the two topmost operands, the
/// topmost as the right-hand one, and fails with `StackUnderflow` where there
/// are fewer. Only then is the token looked at: unknown text fails with
/// `UnknownToken`, and an operator pushes its result or fails as the
/// arithmetic does.
pub open spec fn step_spec(stack: Seq<i32>, token: TokenView, position: nat) -> Result<
    Seq<i32>,
    ErrorView,
> {
    match token {
        TokenView::Operand(v) => Ok(stack.push(v)),
        TokenView::Operator(op) => if stack.len() < 2 {
            Err(ErrorView::StackUnderflow(position))
        } else {
            match apply_spec(op, stack[stack.len() - 2], stack[stack.len() - 1]) {
                Ok(v) => Ok(without_top_two(stack).push(v)),
                Err(ArithError::DivisionByZero) => Err(ErrorView::DivisionByZero(position)),
                Err(ArithError::Overflow) => Err(ErrorView::Overflow(position)),
            }
        },
        TokenView::Unknown(text) => if stack.len() < 2 {
            Err(ErrorView::StackUnderflow(position))
        } else {
            Err(ErrorView::UnknownToken(text, position))
        },
    }
}

/// The stack once the first `k` of `tokens` are processed, starting from the
/// empty stack, or the first fault met among them.
pub open spec fn stack_after(tokens: Seq<Seq<char>>, k: nat) -> Result<Seq<i32>, ErrorView>
    decreases k,
{
    if k == 0 {
        Ok(Seq::empty())
    } else {
        match stack_after(tokens, (k - 1) as nat) {
            Ok(stack) => step_spec(stack, token_of(tokens[k - 1]), k),
            Err(e) => Err(e),
        }
    }
}

/// What the stack left by a whole formula says: its only operand is the
/// value; none at all, or more than one, is a fault.
pub open spec fn verdict(stack: Seq<i32>) -> Result<i32, ErrorView> {
    if stack.len() == 1 {
        Ok(stack[0])
    } else if stack.len() == 0 {
        Err(ErrorView::EmptyStack)
    } else {
        Err(ErrorView::TrailingOperands(stack.len()))
    }
}

/// The value of the formula whose tokens are `tokens`, or the fault that it
/// has.
pub open spec fn outcome(tokens: Seq<Seq<char>>) -> Result<i32, ErrorView> {
    match stack_after(tokens, tokens.len()) {
        Ok(stack) => verdict(stack),
        Err(e) => Err(e),
    }
}

/// Takes the two topmost operands off `stack` for the token at `position`:
/// the left-hand one, which lay deeper, and the right-hand one, which lay on
/// top. With fewer than two, it takes what there is and fails.
pub fn take_two(stack: &mut Vec<i32>, position: usize) -> (r: Result<(i32, i32), EvalError>)
    ensures
        final(stack)@ == without_top_two(old(stack)@),
        old(stack)@.len() >= 2 ==> r == Ok::<(i32, i32), EvalError>(
            (old(stack)@[old(stack)@.len() - 2], old(stack)@[old(stack)@.len() - 1]),
        ),
        old(stack)@.len() < 2 ==> r == Err::<(i32, i32), EvalError>(
            EvalError::StackUnderflow(position),
        ),
{
    let y = match stack.pop() {
        Some(y) => y,
        None => {
            return Err(EvalError::StackUnderflow(position));
        },
    };
    let x = match stack.pop() {
        Some(x) => x,
        None => {
            return Err(EvalError::StackUnderflow(position));
        },
    };
    assert(stack@ == without_top_two(old(stack)@));
    Ok((x, y))
}

/// Processes `token`, the token at `position`, on `stack`.
///
/// On a fault the operands that the token took off stay off.
pub fn step(stack: &mut Vec<i32>, token: &Token, position: usize) -> (r: Result<(), EvalError>)
    ensures
        match step_spec(old(stack)@, token@, position as nat) {
            Ok(s) => r is Ok && final(stack)@ == s,
            Err(e) => r is Err && r->Err_0@ == e && final(stack)@ == without_top_two(old(stack)@),
        },
{
    match token {
        Token::Operand(v) => {
            stack.push(*v);
            Ok(())
        },
        Token::Operator(op) => match take_two(stack, position) {
            Ok((x, y)) => match apply(*op, x, y) {
                Ok(v) => {
                    stack.push(v);
                    Ok(())
                },
                Err(ArithError::DivisionByZero) => Err(EvalError::DivisionByZero(position)),
                Err(ArithError::Overflow) => Err(EvalError::Overflow(position)),
            },
            Err(e) => Err(e),
        },
        Token::Unknown(text) => match take_two(stack, position) {
            Ok(_) => Err(EvalError::UnknownToken(text.clone(), position)),
            Err(e) => Err(e),
        },
    }
}

/// Reads the value of a formula off the stack that it left.
pub fn finish(stack: &Vec<i32>) -> (r: Result<i32, EvalError>)
    ensures
        result_view(r) == verdict(stack@),
{
    if stack.len() == 1 {
        Ok(stack[0])
    } else if stack.len() == 0 {
        Err(EvalError::EmptyStack)
    } else {
        Err(EvalError::TrailingOperands(stack.len()))
    }
}

} // verus!
