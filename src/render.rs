//! Text that a logger prints about a run: indentation, the verdict flag,
//! the split of a duration, and the lines that list what failed.

use vstd::prelude::*;
use vstd::string::StringExecFns;

use crate::header::header_text;
use crate::report::{block_count, BlockReport, ExampleResult, Outcome, Report, SuiteReport};

verus! {

broadcast use vstd::std_specs::vec::group_vec_axioms, vstd::seq::group_seq_axioms;

/// Two spaces per level of depth.
pub open spec fn indent(depth: nat) -> Seq<char>
    decreases depth,
{
    if depth == 0 {
        Seq::empty()
    } else {
        indent((depth - 1) as nat) + "  "@
    }
}

/// The indentation of a line at the given depth.
pub fn padding(depth: usize) -> (r: String)
    ensures
        r@ == indent(depth as nat),
{
    let mut text = String::new();
    let mut i: usize = 0;
    while i < depth
        invariant
            i <= depth,
            text@ == indent(i as nat),
        decreases depth - i,
    {
        text = text.concat("  ");
        proof {
            reveal_strlit("  ");
        }
        i += 1;
    }
    text
}

/// The verdict printed for a report: `ok` where it is a success, else
/// `FAILED`.
pub fn report_flag<R: Report>(report: &R) -> (r: &'static str)
    ensures
        r@ == (if report.count(Outcome::Failed) == 0 && report.count(Outcome::Ignored) == 0 {
            "ok"@
        } else {
            "FAILED"@
        }),
{
    if report.is_success() {
        "ok"
    } else {
        "FAILED"
    }
}

/// A duration split for printing: hours, minutes below 60, seconds below 60
/// and milliseconds below 1000.
pub struct DurationParts {
    pub hours: u64,
    pub minutes: u64,
    pub seconds: u64,
    pub milliseconds: u64,
}

/// Splits a number of milliseconds into hours, minutes, seconds and
/// milliseconds.
pub fn duration_parts(total: u64) -> (r: DurationParts)
    ensures
        r.minutes < 60,
        r.seconds < 60,
        r.milliseconds < 1000,
        r.hours * 3_600_000 + r.minutes * 60_000 + r.seconds * 1000 + r.milliseconds == total,
{
    let hours = total / 3_600_000;
    let rest = total % 3_600_000;
    let minutes = rest / 60_000;
    let rest2 = rest % 60_000;
    let seconds = rest2 / 1000;
    let milliseconds = rest2 % 1000;
    assert(hours * 3_600_000 + rest == total) by (nonlinear_arith)
        requires
            hours == total / 3_600_000,
            rest == total % 3_600_000,
    ;
    assert(minutes * 60_000 + rest2 == rest && minutes < 60) by (nonlinear_arith)
        requires
            minutes == rest / 60_000,
            rest2 == rest % 60_000,
            rest < 3_600_000,
    ;
    assert(seconds * 1000 + milliseconds == rest2 && seconds < 60) by (nonlinear_arith)
        requires
            seconds == rest2 / 1000,
            milliseconds == rest2 % 1000,
            rest2 < 60_000,
    ;
    DurationParts { hours, minutes, seconds, milliseconds }
}

/// One line of the list of failures: its depth and its text.
pub struct FailureLine {
    pub depth: usize,
    pub text: String,
}

impl FailureLine {
    pub open spec fn view(&self) -> (nat, Seq<char>) {
        (self.depth as nat, self.text@)
    }
}

/// The views of a sequence of lines.
pub open spec fn line_views(s: Seq<FailureLine>) -> Seq<(nat, Seq<char>)> {
    s.map_values(|l: FailureLine| l.view())
}

/// `depth + n`, kept below `usize::MAX`.
pub open spec fn deeper(depth: usize, n: usize) -> usize {
    if depth + n > usize::MAX {
        usize::MAX
    } else {
        (depth + n) as usize
    }
}

/// The failure lines of a block that holds a failure, else none. A context
/// gives its header, where it has one, and its blocks two levels deeper; an
/// example gives its header and, one level deeper, its message if it has one.
pub open spec fn block_failures(b: BlockReport, depth: usize) -> Seq<(nat, Seq<char>)>
    decreases b,
{
    if block_count(b, Outcome::Failed) == 0 {
        Seq::empty()
    } else {
        match b {
            BlockReport::Context(h, c) => (match h {
                Some(h) => seq![(depth as nat, header_text(h.label.text(), h.name@))],
                None => Seq::empty(),
            }) + blocks_failures(c.sub_reports@, deeper(depth, 2)),
            BlockReport::Example(h, e) => seq![
                (depth as nat, header_text(h.label.text(), h.name@)),
            ] + match e.result {
                ExampleResult::Failure(Some(m)) => seq![((deeper(depth, 1)) as nat, m@)],
                _ => Seq::empty(),
            },
        }
    }
}

/// The failure lines of a sequence of blocks, in order.
pub open spec fn blocks_failures(s: Seq<BlockReport>, depth: usize) -> Seq<(nat, Seq<char>)>
    decreases s,
{
    if s.len() == 0 {
        Seq::empty()
    } else {
        blocks_failures(s.drop_last(), depth) + block_failures(s.last(), depth)
    }
}

/// The failure lines of a suite: its header, then the failures of its
/// blocks one level deeper; none where nothing failed.
pub open spec fn suite_failures(r: SuiteReport) -> Seq<(nat, Seq<char>)> {
    if r.count(Outcome::Failed) == 0 {
        Seq::empty()
    } else {
        seq![(0nat, header_text(r.header.label.text(), r.header.name@))] + blocks_failures(
            r.context.sub_reports@,
            1,
        )
    }
}

fn push_line(out: &mut Vec<FailureLine>, depth: usize, text: String)
    ensures
        line_views(final(out)@) == line_views(old(out)@).push((depth as nat, text@)),
{
    out.push(FailureLine { depth, text });
    assert(line_views(final(out)@) =~= line_views(old(out)@).push((depth as nat, text@)));
}

fn push_block_failures(report: &BlockReport, depth: usize, out: &mut Vec<FailureLine>)
    ensures
        line_views(final(out)@) == line_views(old(out)@) + block_failures(*report, depth),
    decreases report, 0int,
{
    if !report.is_failure() {
        assert(line_views(old(out)@) + block_failures(*report, depth) =~= line_views(old(out)@));
        return ;
    }
    let ghost start = line_views(out@);
    match report {
        BlockReport::Context(header, context) => {
            match header {
                Some(h) => {
                    push_line(out, depth, h.to_string());
                },
                None => {},
            }
            push_blocks_failures(&context.sub_reports, depth.saturating_add(2), out);
            assert(line_views(out@) =~= start + block_failures(*report, depth));
        },
        BlockReport::Example(header, example) => {
            push_line(out, depth, header.to_string());
            match &example.result {
                ExampleResult::Failure(Some(message)) => {
                    push_line(out, depth.saturating_add(1), message.clone());
                },
                _ => {},
            }
            assert(line_views(out@) =~= start + block_failures(*report, depth));
        },
    }
}

fn push_blocks_failures(reports: &Vec<BlockReport>, depth: usize, out: &mut Vec<FailureLine>)
    ensures
        line_views(final(out)@) == line_views(old(out)@) + blocks_failures(reports@, depth),
    decreases reports, 1int,
{
    let ghost start = line_views(out@);
    let mut i: usize = 0;
    while i < reports.len()
        invariant
            i <= reports@.len(),
            line_views(out@) == start + blocks_failures(reports@.take(i as int), depth),
        decreases reports@.len() - i,
    {
        proof {
            assert(decreases_to!(reports => reports@[i as int]));
            assert(reports@.take(i as int + 1).drop_last() =~= reports@.take(i as int));
        }
        push_block_failures(&reports[i], depth, out);
        i += 1;
        assert(line_views(out@) =~= start + blocks_failures(reports@.take(i as int), depth));
    }
    assert(reports@.take(i as int) =~= reports@);
}

/// The lines that list what failed in a suite, with their depths.
pub fn failure_lines(report: &SuiteReport) -> (r: Vec<FailureLine>)
    ensures
        line_views(r@) == suite_failures(*report),
{
    let mut out: Vec<FailureLine> = Vec::new();
    assert(line_views(out@) =~= Seq::empty());
    if report.is_failure() {
        push_line(&mut out, 0, report.header.to_string());
        push_blocks_failures(&report.context.sub_reports, 1, &mut out);
    }
    out
}

} // verus!
