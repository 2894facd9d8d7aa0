//! The outcomes of many calls, counted. Each call runs on a guest of its own,
//! so one that fails takes nothing from the others, and the count goes on
//! past a failure.

use crate::error::BoundaryError;
use vstd::prelude::*;

verus! {

/// How many calls of a batch succeeded and how many failed.
#[derive(Clone, Copy, Debug, PartialEq, Eq, Structural)]
pub struct BatchReport {
    /// The number of calls that returned a value.
    pub succeeded: usize,
    /// The number of calls that ended in an error.
    pub failed: usize,
}

/// The number of outcomes that are values.
pub open spec fn successes(outcomes: Seq<Result<String, BoundaryError>>) -> nat
    decreases outcomes.len(),
{
    if outcomes.len() == 0 {
        0
    } else {
        successes(outcomes.drop_last()) + if outcomes.last() is Ok {
            1nat
        } else {
            0nat
        }
    }
}

/// Counts the outcomes of a batch of calls. Every outcome is counted once:
/// a failure does not end the count.
pub fn tally(outcomes: &Vec<Result<String, BoundaryError>>) -> (report: BatchReport)
    ensures
        report.succeeded == successes(outcomes@),
        report.succeeded + report.failed == outcomes@.len(),
{
    let mut report = BatchReport { succeeded: 0, failed: 0 };
    let mut index: usize = 0;
    while index < outcomes.len()
        invariant
            index <= outcomes@.len(),
            report.succeeded == successes(outcomes@.subrange(0, index as int)),
            report.succeeded + report.failed == index,
        decreases outcomes@.len() - index,
    {
        assert(outcomes@.subrange(0, index + 1).drop_last() =~= outcomes@.subrange(
            0,
            index as int,
        ));
        match &outcomes[index] {
            Ok(_) => {
                report = BatchReport { succeeded: report.succeeded + 1, failed: report.failed };
            },
            Err(_) => {
                report = BatchReport { succeeded: report.succeeded, failed: report.failed + 1 };
            },
        }
        index = index + 1;
    }
    assert(outcomes@.subrange(0, index as int) =~= outcomes@);
    report
}

} // verus!
