//! Aggregating the outcomes of a batch of write messages.
use vstd::prelude::*;

use crate::error::Error;
use crate::lifecycle::Event;

verus! {

/// What became of one submitted write message.
#[derive(Clone, Debug, PartialEq, Eq)]
pub enum UnitOutcome {
    Confirmed,
    /// Rejected, or not confirmed before the deadline; with the remote reason.
    Failed(String),
}

/// A write unit that did not land, by its index in the plan.
#[derive(Clone, Debug, PartialEq, Eq)]
pub struct FailedUnit {
    pub index: usize,
    pub reason: String,
}

/// Outcome of one dispatch: how many units were sent and which failed.
#[derive(Clone, Debug, PartialEq, Eq)]
pub struct DispatchReport {
    pub total: usize,
    pub failed: Vec<FailedUnit>,
}

/// The failures among the first `n` outcomes, in order, as (index, reason).
pub open spec fn failures_upto(outcomes: Seq<UnitOutcome>, n: int) -> Seq<(int, Seq<char>)>
    decreases n,
{
    if n <= 0 {
        seq![]
    } else {
        let before = failures_upto(outcomes, n - 1);
        match outcomes[n - 1] {
            UnitOutcome::Confirmed => before,
            UnitOutcome::Failed(reason) => before.push((n - 1, reason@)),
        }
    }
}

/// The failures among all `outcomes`, in order, as (index, reason).
pub open spec fn failures(outcomes: Seq<UnitOutcome>) -> Seq<(int, Seq<char>)> {
    failures_upto(outcomes, outcomes.len() as int)
}

impl FailedUnit {
    pub open spec fn view(&self) -> (int, Seq<char>) {
        (self.index as int, self.reason@)
    }
}

impl DispatchReport {
    /// The failed units as (index, reason) pairs.
    pub open spec fn failed_view(&self) -> Seq<(int, Seq<char>)> {
        self.failed@.map_values(|f: FailedUnit| f@)
    }

    /// Number of units that did not land.
    pub fn failure_count(&self) -> (r: usize)
        ensures
            r == self.failed@.len(),
    {
        self.failed.len()
    }

    /// The report as the answer to an upload's write phase.
    pub fn event(&self) -> (r: Event)
        ensures
            r == (Event::WritesReported { failed: self.failed@.len() as usize, total: self.total }),
    {
        Event::WritesReported { failed: self.failed.len(), total: self.total }
    }

    /// `Ok` when every unit landed, else the count of failed writes.
    pub fn into_result(self) -> (r: Result<(), Error>)
        ensures
            self.failed@.len() == 0 ==> r is Ok,
            self.failed@.len() > 0 ==> r == Err::<(), Error>(
                Error::WriteTransactions(self.failed@.len() as usize),
            ),
    {
        if self.failed.len() == 0 {
            Ok(())
        } else {
            Err(Error::WriteTransactions(self.failed.len()))
        }
    }
}

/// Collects one outcome per write unit into a report: every unit is counted,
/// and every failure is kept with its index and reason, none dropped.
pub fn aggregate(outcomes: &Vec<UnitOutcome>) -> (report: DispatchReport)
    ensures
        report.total == outcomes@.len(),
        report.failed_view() == failures(outcomes@),
{
    let mut failed: Vec<FailedUnit> = Vec::new();
    let mut i: usize = 0;
    while i < outcomes.len()
        invariant
            i <= outcomes@.len(),
            failed@.map_values(|f: FailedUnit| f@) == failures_upto(outcomes@, i as int),
        decreases outcomes@.len() - i,
    {
        match &outcomes[i] {
            UnitOutcome::Confirmed => {},
            UnitOutcome::Failed(reason) => {
                failed.push(FailedUnit { index: i, reason: reason.clone() });
            },
        }
        assert(failed@.map_values(|f: FailedUnit| f@) =~= failures_upto(outcomes@, i + 1));
        i = i + 1;
    }
    DispatchReport { total: outcomes.len(), failed }
}

} // verus!
