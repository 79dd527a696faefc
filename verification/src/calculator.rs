//! The calculator: a formula in, its value or its fault out.

use vstd::prelude::*;
use crate::error::{result_view, ErrorView, EvalError};
use crate::lexer::{split, texts, tokenize};
use crate::machine::{finish, outcome, stack_after, step};
use crate::token::classify;
use crate::trace::{
    entries, lemma_fault_persists, lemma_processed_until_fault, snapshot, snapshots, trace_of,
    TraceEntry, TraceEntryView,
};

verus! {

/// A calculator for formulas in Reverse Polish Notation.
///
/// Its only state is whether it records a step trace; a formula leaves
/// nothing behind in it.
#[derive(Clone, Copy, Debug, PartialEq, Eq)]
pub struct RpnCalculator {
    verbose: bool,
}

/// What the evaluation of a formula yields: its value or fault, and the step
/// trace.
#[derive(Debug, PartialEq, Eq)]
pub struct Evaluation {
    /// The value of the formula, or the fault that it has.
    pub result: Result<i32, EvalError>,
    /// The step trace; empty where the calculator records none.
    pub trace: Vec<TraceEntry>,
}

/// The mathematical value of an `Evaluation`.
pub struct EvaluationView {
    pub result: Result<i32, ErrorView>,
    pub trace: Seq<TraceEntryView>,
}

impl View for Evaluation {
    type V = EvaluationView;

    open spec fn view(&self) -> EvaluationView {
        EvaluationView { result: result_view(self.result), trace: entries(self.trace@) }
    }
}

/// The value of the formula `formula`, or the fault that it has.
pub open spec fn formula_outcome(formula: Seq<char>) -> Result<i32, ErrorView> {
    outcome(split(formula))
}

/// The trace that a calculator hands out for `tokens`: the trace of their
/// evaluation where it is verbose, and nothing where it is not.
pub open spec fn recorded_trace(verbose: bool, tokens: Seq<Seq<char>>) -> Seq<TraceEntryView> {
    if verbose {
        trace_of(tokens)
    } else {
        Seq::empty()
    }
}

/// What a calculator that is verbose or not yields for the formula whose
/// tokens are `tokens`.
pub open spec fn evaluation_of(verbose: bool, tokens: Seq<Seq<char>>) -> EvaluationView {
    EvaluationView { result: outcome(tokens), trace: recorded_trace(verbose, tokens) }
}

/// Copies the strings of `tokens` from index `from` on.
pub fn remaining_from(tokens: &Vec<String>, from: usize) -> (rest: Vec<String>)
    requires
        from <= tokens@.len(),
    ensures
        texts(rest@) == texts(tokens@).skip(from as int),
{
    let mut rest: Vec<String> = Vec::new();
    let mut j: usize = from;
    while j < tokens.len()
        invariant
            from <= j <= tokens@.len(),
            rest@.len() == j - from,
            forall|k: int| 0 <= k < rest@.len() ==> (#[trigger] rest@[k])@ == tokens@[from + k]@,
        decreases tokens@.len() - j,
    {
        rest.push(tokens[j].clone());
        j += 1;
    }
    assert(texts(rest@) =~= texts(tokens@).skip(from as int));
    rest
}

/// Copies the operands of `stack`.
pub fn copy_stack(stack: &Vec<i32>) -> (copy: Vec<i32>)
    ensures
        copy@ == stack@,
{
    let mut copy: Vec<i32> = Vec::new();
    let mut j: usize = 0;
    while j < stack.len()
        invariant
            j <= stack@.len(),
            copy@ == stack@.take(j as int),
        decreases stack@.len() - j,
    {
        copy.push(stack[j]);
        assert(stack@.take(j + 1) == stack@.take(j as int).push(stack@[j as int]));
        j += 1;
    }
    assert(stack@.take(stack@.len() as int) == stack@);
    copy
}

impl RpnCalculator {
    /// A calculator that records a step trace if and only if `verbose`.
    pub fn new(verbose: bool) -> (calc: Self)
        ensures
            calc.verbose() == verbose,
    {
        RpnCalculator { verbose }
    }

    /// Whether this calculator records a step trace.
    pub closed spec fn verbose(&self) -> bool {
        self.verbose
    }

    /// Whether this calculator records a step trace.
    pub fn is_verbose(&self) -> (b: bool)
        ensures
            b == self.verbose(),
    {
        self.verbose
    }

    /// The value of `formula`, or the fault that it has.
    pub fn evaluate(&self, formula: &str) -> (r: Result<i32, EvalError>)
        ensures
            result_view(r) == formula_outcome(formula@),
    {
        let tokens = tokenize(formula);
        RpnCalculator { verbose: false }.evaluate_tokens(&tokens).result
    }

    /// The value or fault of `formula`, with the step trace where this
    /// calculator records one.
    pub fn evaluate_with_trace(&self, formula: &str) -> (e: Evaluation)
        ensures
            e@ == evaluation_of(self.verbose(), split(formula@)),
    {
        let tokens = tokenize(formula);
        self.evaluate_tokens(&tokens)
    }

    /// Evaluates the formula whose tokens, in reading order, are `tokens`.
    pub fn evaluate_tokens(&self, tokens: &Vec<String>) -> (e: Evaluation)
        ensures
            e@ == evaluation_of(self.verbose(), texts(tokens@)),
    {
        let ghost toks = texts(tokens@);
        let n = tokens.len();
        let mut stack: Vec<i32> = Vec::new();
        let mut trace: Vec<TraceEntry> = Vec::new();
        let mut i: usize = 0;
        while i < n
            invariant
                toks == texts(tokens@),
                n == tokens@.len(),
                i <= n,
                stack_after(toks, i as nat) == Ok::<Seq<i32>, ErrorView>(stack@),
                self.verbose ==> entries(trace@) == snapshots(toks, i as nat),
                !self.verbose ==> trace@.len() == 0,
            decreases n - i,
        {
            let token = classify(tokens[i].as_str());
            match step(&mut stack, &token, i + 1) {
                Ok(()) => {},
                Err(e) => {
                    proof {
                        lemma_fault_persists(toks, (i + 1) as nat, n as nat);
                        lemma_processed_until_fault(toks, i as nat, n as nat);
                        assert(entries(trace@) =~= recorded_trace(self.verbose, toks));
                    }
                    return Evaluation { result: Err(e), trace };
                },
            }
            i += 1;
            assert(stack_after(toks, i as nat) == Ok::<Seq<i32>, ErrorView>(stack@));
            if self.verbose {
                let entry = TraceEntry {
                    remaining: remaining_from(tokens, i),
                    stack: copy_stack(&stack),
                };
                assert(entry@ == snapshot(toks, i as nat));
                assert forall|j: int| 0 <= j < i implies #[trigger] entries(
                    trace@.push(entry),
                )[j] == snapshots(toks, i as nat)[j] by {
                    if j < i - 1 {
                        assert(entries(trace@)[j] == snapshots(toks, (i - 1) as nat)[j]);
                    }
                }
                assert(entries(trace@.push(entry)) =~= snapshots(toks, i as nat));
                trace.push(entry);
            }
        }
        assert(entries(trace@) =~= recorded_trace(self.verbose, toks));
        Evaluation { result: finish(&stack), trace }
    }
}

} // verus!
