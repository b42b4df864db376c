//! Decision logic of the priority-ordered walk over gas price sources.
//!
//! A caller configures an ordered list of sources, most trusted first,
//! and an overall time budget. The walk tries sources strictly in that
//! order, gives each attempt the whole remaining budget, stops at the
//! first success, and, when every source has failed or the budget has
//! run out, reports every recorded failure in priority order.
//!
//! The walk itself performs no I/O: the caller queries the source named
//! by [`PriorityWalk::next_query`], measures how long the attempt took,
//! and hands the outcome back through [`PriorityWalk::record`].

use vstd::prelude::*;
use crate::gas_price::EstimatedGasPrice;

verus! {

/// Why one source failed to deliver a usable price.
#[derive(Debug, Clone, PartialEq, Eq)]
pub enum SourceFailure {
    /// The underlying network or HTTP call failed; the message is
    /// opaque to this crate.
    Transport(String),
    /// The source answered, but the answer could not be interpreted as
    /// a price.
    Parse(String),
    /// The source did not resolve within its allotted slice of the
    /// time budget.
    Timeout,
}

/// Every configured source failed or timed out. Carries the per-source
/// failures in priority order, one per attempted source.
#[derive(Debug, Clone, PartialEq, Eq)]
pub struct AllSourcesExhausted {
    /// The recorded failures, indexed by priority position.
    pub failures: Vec<SourceFailure>,
}

/// What one attempt at a source produced.
#[derive(Debug, Clone, PartialEq)]
pub enum SourceOutcome {
    /// The source delivered a price within its slice.
    Price(EstimatedGasPrice),
    /// The source failed or its slice lapsed.
    Failed(SourceFailure),
}

/// The state of one priority-ordered estimation pass.
#[derive(Debug, Clone, PartialEq)]
pub struct PriorityWalk {
    /// How many sources are configured.
    pub n_sources: usize,
    /// Position of the next source to try.
    pub next_index: usize,
    /// Milliseconds of the overall time budget not yet spent.
    pub remaining_millis: u64,
    /// Failures of the sources already tried, in priority order.
    pub failures: Vec<SourceFailure>,
}

/// The walk after one recorded outcome: either a final answer or the
/// state from which the next source is tried.
#[derive(Debug, PartialEq)]
pub enum EstimationStep {
    /// The pass is over: the first usable price, or the aggregate
    /// failure.
    Done(Result<EstimatedGasPrice, AllSourcesExhausted>),
    /// More sources and budget are left; continue from this state.
    Pending(PriorityWalk),
}

impl PriorityWalk {
    /// One failure recorded for every source already tried, and no
    /// source skipped.
    pub open spec fn wf(self) -> bool {
        &&& self.next_index <= self.n_sources
        &&& self.failures@.len() == self.next_index
    }

    /// Start a pass over `n_sources` sources with a time budget of
    /// `time_budget_millis` milliseconds.
    pub fn new(n_sources: usize, time_budget_millis: u64) -> (walk: Self)
        ensures
            walk.wf(),
            walk.n_sources == n_sources,
            walk.next_index == 0,
            walk.remaining_millis == time_budget_millis,
            walk.failures@ == Seq::<SourceFailure>::empty(),
    {
        Self { n_sources, next_index: 0, remaining_millis: time_budget_millis, failures: Vec::new() }
    }

    /// Which source to try next, if any: the first source not yet
    /// tried, provided some budget is left. Its slice is the whole
    /// remaining budget (`remaining_millis`).
    pub fn next_query(&self) -> (r: Option<usize>)
        ensures
            r == (if self.next_index < self.n_sources && self.remaining_millis > 0 {
                Some(self.next_index)
            } else {
                None::<usize>
            }),
    {
        if self.next_index < self.n_sources && self.remaining_millis > 0 {
            Some(self.next_index)
        } else {
            None
        }
    }

    /// Record the outcome of the source named by `next_query`, which
    /// took `elapsed_millis` of the budget.
    ///
    /// A price ends the pass at once with that price, untransformed;
    /// failures of earlier sources stay recorded but are not surfaced.
    /// A failure is appended to the record and the walk moves on,
    /// unless it was the last source or the budget is now exhausted,
    /// in which case the pass ends with [`AllSourcesExhausted`].
    pub fn record(self, outcome: SourceOutcome, elapsed_millis: u64) -> (step: EstimationStep)
        requires
            self.wf(),
            self.next_index < self.n_sources,
            self.remaining_millis > 0,
        ensures
            match outcome {
                SourceOutcome::Price(price) => step == EstimationStep::Done(
                    Ok::<EstimatedGasPrice, AllSourcesExhausted>(price),
                ),
                SourceOutcome::Failed(failure) => {
                    let spent = if elapsed_millis < self.remaining_millis {
                        elapsed_millis as int
                    } else {
                        self.remaining_millis as int
                    };
                    let left = self.remaining_millis - spent;
                    let recorded = self.failures@.push(failure);
                    if self.next_index + 1 == self.n_sources || left == 0 {
                        step matches EstimationStep::Done(r) && r matches Err(e)
                            && e.failures@ == recorded
                    } else {
                        step matches EstimationStep::Pending(walk) && {
                            &&& walk.wf()
                            &&& walk.n_sources == self.n_sources
                            &&& walk.next_index == self.next_index + 1
                            &&& walk.remaining_millis == left
                            &&& walk.failures@ == recorded
                        }
                    }
                },
            },
    {
        match outcome {
            SourceOutcome::Price(price) => EstimationStep::Done(Ok(price)),
            SourceOutcome::Failed(failure) => {
                let left = if elapsed_millis < self.remaining_millis {
                    self.remaining_millis - elapsed_millis
                } else {
                    0
                };
                let mut failures = self.failures;
                failures.push(failure);
                if self.next_index + 1 == self.n_sources || left == 0 {
                    EstimationStep::Done(Err(AllSourcesExhausted { failures }))
                } else {
                    EstimationStep::Pending(
                        PriorityWalk {
                            n_sources: self.n_sources,
                            next_index: self.next_index + 1,
                            remaining_millis: left,
                            failures,
                        },
                    )
                }
            },
        }
    }

    /// End a pass that never got to query a source: no sources are
    /// configured, or the budget was empty from the start. Whatever
    /// was recorded is surfaced in order.
    pub fn into_failure(self) -> (e: AllSourcesExhausted)
        ensures
            e.failures@ == self.failures@,
    {
        AllSourcesExhausted { failures: self.failures }
    }
}

} // verus!
