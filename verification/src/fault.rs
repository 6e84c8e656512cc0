//! The fault-containment boundary.
//!
//! Capability code reports a fault as a value. The boundary turns a contained
//! fault into the default the host is owed and records one report for it.

use vstd::prelude::*;

verus! {

/// A fault raised while capability code ran.
#[derive(Clone, Copy, Debug, PartialEq, Eq, Structural)]
pub struct Fault {}

/// What the diagnostic side channel is told about a contained fault.
#[derive(Clone, Copy, Debug, PartialEq, Eq, Structural)]
pub enum FaultReport {
    PanicInCallback,
}

impl FaultReport {
    /// The text of the report.
    pub fn message(&self) -> (text: &'static str)
        ensures
            text@ == "Panic in callback"@,
    {
        "Panic in callback"
    }
}

/// The diagnostic side channel: every report made so far, oldest first.
pub struct FaultLog {
    pub reports: Vec<FaultReport>,
}

impl View for FaultLog {
    type V = Seq<FaultReport>;

    open spec fn view(&self) -> Seq<FaultReport> {
        self.reports@
    }
}

/// The value the host receives from a contained call.
pub open spec fn contained_value<R>(outcome: Result<R, Fault>, def: R) -> R {
    match outcome {
        Ok(value) => value,
        Err(_) => def,
    }
}

/// The side channel after a contained call: one more report exactly when the
/// call faulted.
pub open spec fn log_after<R>(log: Seq<FaultReport>, outcome: Result<R, Fault>) -> Seq<
    FaultReport,
> {
    match outcome {
        Ok(_) => log,
        Err(_) => log.push(FaultReport::PanicInCallback),
    }
}

impl FaultLog {
    /// A side channel that has received nothing.
    pub fn new() -> (log: Self)
        ensures
            log@ == Seq::<FaultReport>::empty(),
    {
        FaultLog { reports: Vec::new() }
    }

    /// The number of reports received.
    pub fn len(&self) -> (n: usize)
        ensures
            n == self@.len(),
    {
        self.reports.len()
    }
}

/// Contains the outcome of a call: a returned value passes through unchanged,
/// a fault becomes `def` and is reported once.
pub fn handle_unwind_with_def<R>(outcome: Result<R, Fault>, def: R, log: &mut FaultLog) -> (r: R)
    ensures
        r == contained_value(outcome, def),
        final(log)@ == log_after(old(log)@, outcome),
{
    match outcome {
        Ok(value) => value,
        Err(_) => {
            log.reports.push(FaultReport::PanicInCallback);
            def
        },
    }
}

/// Contains the outcome of a call that returns nothing.
pub fn handle_unwind(outcome: Result<(), Fault>, log: &mut FaultLog)
    ensures
        final(log)@ == log_after(old(log)@, outcome),
{
    handle_unwind_with_def(outcome, (), log)
}

/// A fault stops at the boundary: the host receives exactly the default, and
/// the side channel receives exactly one report, after those it already had.
pub proof fn lemma_fault_is_contained<R>(fault: Fault, def: R, log: Seq<FaultReport>)
    ensures
        contained_value(Err::<R, Fault>(fault), def) == def,
        log_after(log, Err::<R, Fault>(fault)) == log.push(FaultReport::PanicInCallback),
        log_after(log, Err::<R, Fault>(fault)).len() == log.len() + 1,
{
}

/// A returned value passes the boundary unchanged, whatever the default, and
/// nothing is reported.
pub proof fn lemma_value_passes<R>(value: R, def: R, log: Seq<FaultReport>)
    ensures
        contained_value(Ok::<R, Fault>(value), def) == value,
        log_after(log, Ok::<R, Fault>(value)) == log,
{
}

} // verus!
