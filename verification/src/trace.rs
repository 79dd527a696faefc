//! The step trace: a snapshot of the evaluation after each token that was
//! processed without a fault.

use vstd::prelude::*;
use crate::lexer::texts;
use crate::machine::stack_after;

verus! {

/// The state of an evaluation right after one token was processed.
#[derive(Clone, Debug, PartialEq, Eq)]
pub struct TraceEntry {
    /// The tokens not yet processed, in reading order.
    pub remaining: Vec<String>,
    /// The operand stack, bottom first.
    pub stack: Vec<i32>,
}

/// The mathematical value of a `TraceEntry`.
pub struct TraceEntryView {
    pub remaining: Seq<Seq<char>>,
    pub stack: Seq<i32>,
}

impl View for TraceEntry {
    type V = TraceEntryView;

    open spec fn view(&self) -> TraceEntryView {
        TraceEntryView { remaining: texts(self.remaining@), stack: self.stack@ }
    }
}

/// The values of the entries that a vector of trace entries holds.
pub open spec fn entries(v: Seq<TraceEntry>) -> Seq<TraceEntryView> {
    Seq::new(v.len(), |i: int| v[i]@)
}

/// How many of the first `k` of `tokens` are processed before the first
/// fault: all `k` where there is none among them.
pub open spec fn processed_within(tokens: Seq<Seq<char>>, k: nat) -> nat
    decreases k,
{
    if k == 0 {
        0
    } else if stack_after(tokens, k) is Ok {
        k
    } else {
        processed_within(tokens, (k - 1) as nat)
    }
}

/// How many of `tokens` are processed before the first fault that a token
/// causes: all of them where no token causes one.
pub open spec fn processed(tokens: Seq<Seq<char>>) -> nat {
    processed_within(tokens, tokens.len())
}

/// The snapshot taken once the first `k` of `tokens` are processed.
pub open spec fn snapshot(tokens: Seq<Seq<char>>, k: nat) -> TraceEntryView {
    TraceEntryView { remaining: tokens.skip(k as int), stack: stack_after(tokens, k)->Ok_0 }
}

/// The first `n` snapshots of the evaluation of `tokens`: one after each of
/// the first `n` tokens, in processing order.
pub open spec fn snapshots(tokens: Seq<Seq<char>>, n: nat) -> Seq<TraceEntryView> {
    Seq::new(n, |i: int| snapshot(tokens, (i + 1) as nat))
}

/// The trace of the evaluation of `tokens`: one snapshot after each token
/// that was processed without a fault, in processing order. The token that
/// causes a fault leaves none, and none follows it.
pub open spec fn trace_of(tokens: Seq<Seq<char>>) -> Seq<TraceEntryView> {
    snapshots(tokens, processed(tokens))
}

/// Once a token has caused a fault, that fault is what every longer prefix
/// of the formula yields.
pub proof fn lemma_fault_persists(tokens: Seq<Seq<char>>, j: nat, k: nat)
    requires
        j <= k,
        stack_after(tokens, j) is Err,
    ensures
        stack_after(tokens, k) == stack_after(tokens, j),
    decreases k,
{
    if j < k {
        lemma_fault_persists(tokens, j, (k - 1) as nat);
    }
}

/// Where the first `j` tokens are processed without a fault and the next one
/// causes one, exactly `j` of any longer prefix are processed.
pub proof fn lemma_processed_until_fault(tokens: Seq<Seq<char>>, j: nat, k: nat)
    requires
        j < k,
        stack_after(tokens, j) is Ok,
        stack_after(tokens, j + 1) is Err,
    ensures
        processed_within(tokens, k) == j,
    decreases k,
{
    lemma_fault_persists(tokens, j + 1, k);
    if j + 1 < k {
        lemma_processed_until_fault(tokens, j, (k - 1) as nat);
    } else {
        if j > 0 {
            assert(processed_within(tokens, j) == j);
        }
    }
}

} // verus!
