//! What holds of every formula.

use vstd::prelude::*;
use crate::calculator::{evaluation_of, formula_outcome, Evaluation, RpnCalculator};
use crate::error::{result_view, ErrorView, EvalError};
use crate::lexer::{all_space, is_space, lemma_split_blank, lemma_split_single_word, split};
use crate::machine::{outcome, stack_after};
use crate::number::{is_digit, literal_value, unsigned_part};
use crate::token::token_of;
use crate::trace::{lemma_fault_persists, processed, processed_within, trace_of};

verus! {

/// A formula that consists of a single integer literal evaluates to the
/// value of that literal.
pub proof fn lemma_single_literal(formula: Seq<char>, value: int)
    requires
        literal_value(formula) == Some(value),
    ensures
        formula_outcome(formula) == Ok::<i32, ErrorView>(value as i32),
        value as i32 == value,
{
    let digits = unsigned_part(formula);
    assert forall|i: int| 0 <= i < formula.len() implies !is_space(#[trigger] formula[i]) by {
        if i == 0 && digits.len() < formula.len() {
        } else if digits.len() < formula.len() {
            assert(is_digit(digits[i - 1]));
            assert(digits[i - 1] == formula[i]);
        } else {
            assert(is_digit(digits[i]));
        }
    }
    lemma_split_single_word(formula);
    let tokens = split(formula);
    assert(tokens[0] == formula);
    assert(stack_after(tokens, 0) == Ok::<Seq<i32>, ErrorView>(Seq::empty()));
    assert(stack_after(tokens, 1) == Ok::<Seq<i32>, ErrorView>(
        Seq::<i32>::empty().push(value as i32),
    ));
}

/// A formula without any token, be it empty or all whitespace, fails with
/// `EmptyStack`.
pub proof fn lemma_blank_formula(formula: Seq<char>)
    requires
        all_space(formula),
    ensures
        formula_outcome(formula) == Err::<i32, ErrorView>(ErrorView::EmptyStack),
{
    lemma_split_blank(formula);
}

/// Evaluating the same formula twice, with calculators of the same
/// verbosity, yields the same value or the same fault, and the same trace.
/// The verbosity has no part in the value or fault.
pub proof fn lemma_evaluation_is_repeatable(
    first_calc: RpnCalculator,
    second_calc: RpnCalculator,
    formula: Seq<char>,
    first: Evaluation,
    second: Evaluation,
)
    requires
        first@ == evaluation_of(first_calc.verbose(), split(formula)),
        second@ == evaluation_of(second_calc.verbose(), split(formula)),
    ensures
        first@.result == second@.result,
        first@.result == formula_outcome(formula),
        first_calc.verbose() == second_calc.verbose() ==> first@ == second@,
{
}

/// Two results of evaluating the same formula are the same value, or the
/// same fault at the same position.
pub proof fn lemma_result_is_repeatable(
    formula: Seq<char>,
    first: Result<i32, EvalError>,
    second: Result<i32, EvalError>,
)
    requires
        result_view(first) == formula_outcome(formula),
        result_view(second) == formula_outcome(formula),
    ensures
        result_view(first) == result_view(second),
        first is Ok <==> second is Ok,
        first is Ok ==> first->Ok_0 == second->Ok_0,
        first is Err ==> first->Err_0@ == second->Err_0@,
{
}

/// The fault met among the first `k` tokens was caused by one of them: it
/// names a position `p` from 1 to `k`, the tokens before `p` were processed
/// without a fault, and those are all that were.
pub proof fn lemma_fault_position(tokens: Seq<Seq<char>>, k: nat)
    requires
        stack_after(tokens, k) is Err,
    ensures
        stack_after(tokens, k)->Err_0.position() is Some,
        1 <= stack_after(tokens, k)->Err_0.position()->0 <= k,
        stack_after(tokens, (stack_after(tokens, k)->Err_0.position()->0 - 1) as nat) is Ok,
        stack_after(tokens, stack_after(tokens, k)->Err_0.position()->0) == stack_after(tokens, k),
        processed_within(tokens, k) == stack_after(tokens, k)->Err_0.position()->0 - 1,
    decreases k,
{
    if k > 0 {
        let before = stack_after(tokens, (k - 1) as nat);
        if before is Err {
            lemma_fault_position(tokens, (k - 1) as nat);
        } else {
            lemma_processed_all(tokens, (k - 1) as nat);
        }
    }
}

/// Where the first `k` tokens are processed without a fault, so is every
/// shorter prefix, and all `k` count as processed.
pub proof fn lemma_processed_all(tokens: Seq<Seq<char>>, k: nat)
    requires
        stack_after(tokens, k) is Ok,
    ensures
        processed_within(tokens, k) == k,
        forall|j: nat| j <= k ==> (#[trigger] stack_after(tokens, j)) is Ok,
{
    assert forall|j: nat| j <= k implies (#[trigger] stack_after(tokens, j)) is Ok by {
        if stack_after(tokens, j) is Err {
            lemma_fault_persists(tokens, j, k);
        }
    }
}

/// The trace has one entry for each token that was processed without a
/// fault, and none for the token that caused one or for those after it:
/// where the formula fails at position `p`, the trace has `p - 1` entries;
/// where it has a value, or its fault shows only at its end, the trace has
/// as many entries as the formula has tokens.
pub proof fn lemma_trace_length(tokens: Seq<Seq<char>>)
    ensures
        trace_of(tokens).len() == processed(tokens),
        processed(tokens) <= tokens.len(),
        match outcome(tokens) {
            Ok(_) => processed(tokens) == tokens.len(),
            Err(e) => match e.position() {
                Some(p) => 1 <= p <= tokens.len() && processed(tokens) == p - 1,
                None => processed(tokens) == tokens.len(),
            },
        },
{
    if stack_after(tokens, tokens.len()) is Err {
        lemma_fault_position(tokens, tokens.len());
    } else {
        lemma_processed_all(tokens, tokens.len());
    }
}

/// The first fault decides: where the token at position `p` causes a fault
/// after the tokens before it caused none, that fault is the outcome of the
/// formula, whatever follows.
pub proof fn lemma_first_fault_decides(tokens: Seq<Seq<char>>, p: nat)
    requires
        1 <= p <= tokens.len(),
        stack_after(tokens, (p - 1) as nat) is Ok,
        stack_after(tokens, p) is Err,
    ensures
        outcome(tokens) == Err::<i32, ErrorView>(stack_after(tokens, p)->Err_0),
        stack_after(tokens, p)->Err_0.position() == Some(p),
{
    lemma_fault_persists(tokens, p, tokens.len());
}

/// How many of the first `k` of `tokens` are operators.
pub open spec fn operators_among(tokens: Seq<Seq<char>>, k: nat) -> nat
    decreases k,
{
    if k == 0 {
        0
    } else if token_of(tokens[k - 1]) is Operator {
        operators_among(tokens, (k - 1) as nat) + 1
    } else {
        operators_among(tokens, (k - 1) as nat)
    }
}

/// How many of the first `k` of `tokens` are operands.
pub open spec fn operands_among(tokens: Seq<Seq<char>>, k: nat) -> nat
    decreases k,
{
    if k == 0 {
        0
    } else if token_of(tokens[k - 1]) is Operand {
        operands_among(tokens, (k - 1) as nat) + 1
    } else {
        operands_among(tokens, (k - 1) as nat)
    }
}

/// The depth of the stack: once `k` tokens are processed without a fault,
/// each of them was an operand or an operator, and the stack holds one value
/// for each operand less one for each operator. Every token pushed one value,
/// and each operator first took two: the depth is `k` less twice the number
/// of operators.
pub proof fn lemma_stack_depth(tokens: Seq<Seq<char>>, k: nat)
    requires
        stack_after(tokens, k) is Ok,
    ensures
        operands_among(tokens, k) + operators_among(tokens, k) == k,
        stack_after(tokens, k)->Ok_0.len() == operands_among(tokens, k) - operators_among(
            tokens,
            k,
        ),
        stack_after(tokens, k)->Ok_0.len() == k - 2 * operators_among(tokens, k),
    decreases k,
{
    if k > 0 {
        lemma_stack_depth(tokens, (k - 1) as nat);
    }
}

/// A formula has a value only if it has one operand more than it has
/// operators, and nothing else.
pub proof fn lemma_value_needs_balance(tokens: Seq<Seq<char>>)
    requires
        outcome(tokens) is Ok,
    ensures
        operands_among(tokens, tokens.len()) == operators_among(tokens, tokens.len()) + 1,
        operands_among(tokens, tokens.len()) + operators_among(tokens, tokens.len())
            == tokens.len(),
{
    lemma_stack_depth(tokens, tokens.len());
}

} // verus!
