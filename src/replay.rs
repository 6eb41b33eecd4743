//! Replaying a report to an observer: after a run, it is told of the suite,
//! of each context with a header and of each example, in the order of
//! declaration, as a serial run would have told it. A logger of a parallel
//! run, whose live events interleave, prints this replay instead.

use vstd::prelude::*;

use crate::header::{ContextHeader, SuiteHeader};
use crate::report::{BlockReport, ContextReport, SuiteReport};
use crate::runner::{all_told, block_told, context_told, Event, RunnerObserver};

verus! {

broadcast use vstd::std_specs::vec::group_vec_axioms, vstd::seq::group_seq_axioms;

/// Tells `observer` of the suite, then of each context and example of the
/// report in order of declaration, then of the end of the suite.
pub fn replay_suite<O: RunnerObserver>(observer: &O, header: &SuiteHeader, report: &SuiteReport)
    ensures
        all_told(seq![*observer], Event::EnterSuite(header)),
        all_told(seq![*observer], Event::ExitSuite(header, report)),
        context_told(seq![*observer], None, report.context),
{
    observer.enter_suite(header);
    replay_context(observer, None, &report.context);
    observer.exit_suite(header, report);
    assert(seq![*observer][0] == *observer);
}

fn replay_context<O: RunnerObserver>(
    observer: &O,
    header: Option<&ContextHeader>,
    report: &ContextReport,
)
    ensures
        context_told(
            seq![*observer],
            match header {
                Some(h) => Some(*h),
                None => None,
            },
            *report,
        ),
    decreases report, 1int,
{
    assert(seq![*observer][0] == *observer);
    if let Some(h) = header {
        observer.enter_context(h);
    }
    let mut i: usize = 0;
    while i < report.sub_reports.len()
        invariant
            i <= report.sub_reports@.len(),
            seq![*observer][0] == *observer,
            forall|j: int|
                0 <= j < i ==> block_told(seq![*observer], #[trigger] report.sub_reports@[j]),
        decreases report.sub_reports@.len() - i,
    {
        proof {
            assert(decreases_to!(report => report.sub_reports@[i as int]));
        }
        replay_block(observer, &report.sub_reports[i]);
        i += 1;
    }
    if let Some(h) = header {
        observer.exit_context(h, report);
    }
}

fn replay_block<O: RunnerObserver>(observer: &O, report: &BlockReport)
    ensures
        block_told(seq![*observer], *report),
    decreases report, 0int,
{
    assert(seq![*observer][0] == *observer);
    match report {
        BlockReport::Context(header, context) => replay_context(observer, header.as_ref(), context),
        BlockReport::Example(header, example) => {
            observer.enter_example(header);
            observer.exit_example(header, example);
        },
    }
}

} // verus!
