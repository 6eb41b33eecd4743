//! Reports hold what the evaluation of an example, a context or a suite gave.

use vstd::prelude::*;

use vstd::string::StringExecFns;

use crate::header::{debug_quoted, quoted, ContextHeader, ExampleHeader, SuiteHeader};

verus! {

broadcast use vstd::std_specs::vec::group_vec_axioms, vstd::seq::group_seq_axioms;

/// The three ways an example can end, as counted by reports.
#[derive(Clone, Copy, PartialEq, Eq, Debug, Structural)]
pub enum Outcome {
    Passed,
    Failed,
    Ignored,
}

/// The result of one example.
#[derive(Clone, PartialEq, Eq, Debug)]
pub enum ExampleResult {
    Success,
    Failure(Option<String>),
    Ignored,
}

/// The message of a `false` returned by an example.
pub open spec fn false_message() -> Seq<char> {
    "assertion failed: expected condition to be true"@
}

impl ExampleResult {
    pub open spec fn outcome(self) -> Outcome {
        match self {
            ExampleResult::Success => Outcome::Passed,
            ExampleResult::Failure(_) => Outcome::Failed,
            ExampleResult::Ignored => Outcome::Ignored,
        }
    }

    /// `1` where this result has the outcome `k`, else `0`.
    pub open spec fn count_of(self, k: Outcome) -> nat {
        if self.outcome() == k {
            1
        } else {
            0
        }
    }

    /// A failure that carries the message `m`.
    pub open spec fn failed_with(self, m: Seq<char>) -> bool {
        match self {
            ExampleResult::Failure(Some(s)) => s@ == m,
            _ => false,
        }
    }

    pub fn outcome_of(&self) -> (r: Outcome)
        ensures
            r == self.outcome(),
    {
        match self {
            ExampleResult::Success => Outcome::Passed,
            ExampleResult::Failure(_) => Outcome::Failed,
            ExampleResult::Ignored => Outcome::Ignored,
        }
    }

    pub fn is_success(&self) -> (r: bool)
        ensures
            r == (self is Success),
    {
        matches!(self, ExampleResult::Success)
    }

    pub fn is_failure(&self) -> (r: bool)
        ensures
            r == (self is Failure),
    {
        matches!(self, ExampleResult::Failure(_))
    }

    pub fn get_passed(&self) -> (r: u32)
        ensures
            r == self.count_of(Outcome::Passed),
    {
        if self.is_success() {
            1
        } else {
            0
        }
    }

    pub fn get_failed(&self) -> (r: u32)
        ensures
            r == self.count_of(Outcome::Failed),
    {
        if self.is_failure() {
            1
        } else {
            0
        }
    }

    pub fn get_ignored(&self) -> (r: u32)
        ensures
            r == self.count_of(Outcome::Ignored),
    {
        if matches!(self, ExampleResult::Ignored) {
            1
        } else {
            0
        }
    }

    /// The result of a body that returns `true` or `false`.
    pub fn from_bool(passed: bool) -> (r: ExampleResult)
        ensures
            passed ==> r is Success,
            !passed ==> r.failed_with(false_message()),
    {
        if passed {
            ExampleResult::Success
        } else {
            let message = "assertion failed: expected condition to be true".to_string();
            proof {
                reveal_strlit("assertion failed: expected condition to be true");
            }
            ExampleResult::Failure(Some(message))
        }
    }
}

/// The message of a body that panicked with the text `t`.
pub open spec fn panic_message(t: Seq<char>) -> Seq<char> {
    "thread panicked at '"@ + quoted(t) + "'."@
}

/// The message of a body that panicked with a payload that holds no text.
pub open spec fn silent_panic_message() -> Seq<char> {
    "thread panicked."@
}

impl ExampleResult {
    /// The result of a body that panicked: a failure that quotes the panic's
    /// text, or gives a fixed message where the payload held no text.
    pub fn from_panic(text: Option<String>) -> (r: ExampleResult)
        ensures
            match text {
                Some(t) => r.failed_with(panic_message(t@)),
                None => r.failed_with(silent_panic_message()),
            },
    {
        match text {
            Some(t) => {
                let message = "thread panicked at '".to_string();
                let message = message.concat(debug_quoted(t.as_str()).as_str());
                let message = message.concat("'.");
                proof {
                    reveal_strlit("thread panicked at '");
                    reveal_strlit("'.");
                }
                ExampleResult::Failure(Some(message))
            },
            None => {
                let message = "thread panicked.".to_string();
                proof {
                    reveal_strlit("thread panicked.");
                }
                ExampleResult::Failure(Some(message))
            },
        }
    }
}

impl From<()> for ExampleResult {
    /// A body that returns nothing has passed.
    fn from(_unit: ()) -> (r: ExampleResult)
        ensures
            r is Success,
    {
        ExampleResult::Success
    }
}

impl vstd::std_specs::convert::FromSpecImpl<()> for ExampleResult {
    open spec fn obeys_from_spec() -> bool {
        true
    }

    open spec fn from_spec(v: ()) -> ExampleResult {
        ExampleResult::Success
    }
}

impl From<bool> for ExampleResult {
    /// `true` has passed; `false` has failed with a fixed message.
    fn from(passed: bool) -> (r: ExampleResult)
        ensures
            passed ==> r is Success,
            !passed ==> r.failed_with(false_message()),
    {
        ExampleResult::from_bool(passed)
    }
}

impl vstd::std_specs::convert::FromSpecImpl<bool> for ExampleResult {
    open spec fn obeys_from_spec() -> bool {
        false
    }

    open spec fn from_spec(v: bool) -> ExampleResult {
        ExampleResult::Success
    }
}

/// Relies on the `Debug` impl of `E`, through `format!("{:?}")`. Nothing is
/// promised of the text.
#[verifier::external_body]
fn debug_text<E: std::fmt::Debug>(e: &E) -> (r: String) {
    format!("{:?}", e)
}

impl<V, E: std::fmt::Debug> From<Result<V, E>> for ExampleResult {
    /// `Ok` has passed; `Err(e)` has failed with the debug text of `e`.
    fn from(result: Result<V, E>) -> (r: ExampleResult)
        ensures
            result is Ok ==> r is Success,
            result is Err ==> r matches ExampleResult::Failure(Some(_)),
    {
        match result {
            Ok(_) => ExampleResult::Success,
            Err(e) => ExampleResult::Failure(Some(debug_text(&e))),
        }
    }
}

impl<V, E: std::fmt::Debug> vstd::std_specs::convert::FromSpecImpl<Result<V, E>> for ExampleResult {
    open spec fn obeys_from_spec() -> bool {
        false
    }

    open spec fn from_spec(v: Result<V, E>) -> ExampleResult {
        ExampleResult::Success
    }
}

/// What the evaluation of one example gave, and how long it took.
#[derive(Clone, PartialEq, Eq, Debug)]
pub struct ExampleReport {
    pub result: ExampleResult,
    pub duration: time::Duration,
}

/// What the evaluation of a block gave: a context or an example.
#[derive(PartialEq, Eq, Debug)]
pub enum BlockReport {
    Context(Option<ContextHeader>, ContextReport),
    Example(ExampleHeader, ExampleReport),
}

/// What the evaluation of a context gave: one report per block, in the order
/// in which the blocks were declared, and how long it took.
#[derive(PartialEq, Eq, Debug)]
pub struct ContextReport {
    pub sub_reports: Vec<BlockReport>,
    pub duration: time::Duration,
}

/// What the evaluation of a suite gave.
#[derive(PartialEq, Eq, Debug)]
pub struct SuiteReport {
    pub header: SuiteHeader,
    pub context: ContextReport,
}

/// The number of examples with outcome `k` under a block.
pub open spec fn block_count(b: BlockReport, k: Outcome) -> nat
    decreases b,
{
    match b {
        BlockReport::Context(_, c) => blocks_count(c.sub_reports@, k),
        BlockReport::Example(_, e) => e.result.count_of(k),
    }
}

/// The number of examples with outcome `k` under a sequence of blocks.
pub open spec fn blocks_count(s: Seq<BlockReport>, k: Outcome) -> nat
    decreases s,
{
    if s.len() == 0 {
        0
    } else {
        blocks_count(s.drop_last(), k) + block_count(s.last(), k)
    }
}

/// The number of examples under a block, whatever their outcome.
pub open spec fn block_total(b: BlockReport) -> nat {
    block_count(b, Outcome::Passed) + block_count(b, Outcome::Failed) + block_count(
        b,
        Outcome::Ignored,
    )
}

/// The sum of `block_total` over a sequence of blocks.
pub open spec fn blocks_total(s: Seq<BlockReport>) -> nat
    decreases s.len(),
{
    if s.len() == 0 {
        0
    } else {
        blocks_total(s.drop_last()) + block_total(s.last())
    }
}

/// The capability shared by all reports: counts of outcomes and a duration.
pub trait Report {
    /// The number of examples under this report with outcome `k`.
    spec fn count(&self, k: Outcome) -> nat;

    /// The measured duration.
    spec fn duration_of(&self) -> time::Duration;

    /// No example failed and none was ignored.
    fn is_success(&self) -> (r: bool)
        ensures
            r == (self.count(Outcome::Failed) == 0 && self.count(Outcome::Ignored) == 0),
    ;

    /// Some example failed.
    fn is_failure(&self) -> (r: bool)
        ensures
            r == (self.count(Outcome::Failed) > 0),
    ;

    fn get_passed(&self) -> (r: u32)
        requires
            self.count(Outcome::Passed) <= u32::MAX,
        ensures
            r == self.count(Outcome::Passed),
    ;

    fn get_failed(&self) -> (r: u32)
        requires
            self.count(Outcome::Failed) <= u32::MAX,
        ensures
            r == self.count(Outcome::Failed),
    ;

    fn get_ignored(&self) -> (r: u32)
        requires
            self.count(Outcome::Ignored) <= u32::MAX,
        ensures
            r == self.count(Outcome::Ignored),
    ;

    fn get_duration(&self) -> (r: time::Duration)
        ensures
            r == self.duration_of(),
    ;
}

proof fn lemma_blocks_count_prefix(s: Seq<BlockReport>, i: int, k: Outcome)
    requires
        0 <= i < s.len(),
    ensures
        blocks_count(s.take(i + 1), k) == blocks_count(s.take(i), k) + block_count(s[i], k),
        blocks_count(s.take(i + 1), k) <= blocks_count(s, k),
    decreases s.len(),
{
    assert(s.take(i + 1).drop_last() =~= s.take(i));
    if i + 1 < s.len() {
        lemma_blocks_count_prefix(s.drop_last(), i, k);
        assert(s.drop_last().take(i + 1) =~= s.take(i + 1));
    } else {
        assert(s.take(i + 1) =~= s);
    }
}

impl ExampleReport {
    pub fn new(result: ExampleResult, duration: time::Duration) -> (r: ExampleReport)
        ensures
            r.result == result,
            r.duration == duration,
    {
        ExampleReport { result, duration }
    }

    pub open spec fn result_of(&self) -> ExampleResult {
        self.result
    }

    pub fn get_result(&self) -> (r: &ExampleResult)
        ensures
            *r == self.result,
    {
        &self.result
    }
}

impl Report for ExampleReport {
    open spec fn count(&self, k: Outcome) -> nat {
        self.result.count_of(k)
    }

    open spec fn duration_of(&self) -> time::Duration {
        self.duration
    }

    fn is_success(&self) -> (r: bool) {
        self.result.is_success()
    }

    fn is_failure(&self) -> (r: bool) {
        self.result.is_failure()
    }

    fn get_passed(&self) -> (r: u32) {
        self.result.get_passed()
    }

    fn get_failed(&self) -> (r: u32) {
        self.result.get_failed()
    }

    fn get_ignored(&self) -> (r: u32) {
        self.result.get_ignored()
    }

    fn get_duration(&self) -> (r: time::Duration) {
        self.duration
    }
}

impl BlockReport {
    /// The reports of the blocks under a context, `None` for an example.
    pub fn get_blocks(&self) -> (r: Option<&[BlockReport]>)
        ensures
            match self {
                BlockReport::Context(_, c) => r matches Some(s) && s@ == c.sub_reports@,
                BlockReport::Example(_, _) => r is None,
            },
    {
        match self {
            BlockReport::Context(_, report) => Some(report.get_blocks()),
            BlockReport::Example(_, _) => None,
        }
    }

    /// Whether some example under this block has outcome `k`.
    fn any(&self, k: Outcome) -> (r: bool)
        ensures
            r == (block_count(*self, k) > 0),
        decreases self,
    {
        match self {
            BlockReport::Context(_, report) => report.any(k),
            BlockReport::Example(_, report) => report.result.outcome_of() == k,
        }
    }

    /// The number of examples under this block with outcome `k`, where it
    /// fits in a `u32`.
    pub fn count_checked(&self, k: Outcome) -> (r: Option<u32>)
        ensures
            block_count(*self, k) <= u32::MAX ==> r == Some(block_count(*self, k) as u32),
            block_count(*self, k) > u32::MAX ==> r is None,
        decreases self,
    {
        match self {
            BlockReport::Context(_, report) => report.count_checked(k),
            BlockReport::Example(_, report) => if report.result.outcome_of() == k {
                Some(1)
            } else {
                Some(0)
            },
        }
    }

    /// The number of examples under this block with outcome `k`.
    fn tally(&self, k: Outcome) -> (r: u32)
        requires
            block_count(*self, k) <= u32::MAX,
        ensures
            r == block_count(*self, k),
        decreases self,
    {
        match self {
            BlockReport::Context(_, report) => report.tally(k),
            BlockReport::Example(_, report) => if report.result.outcome_of() == k {
                1
            } else {
                0
            },
        }
    }
}

impl Report for BlockReport {
    open spec fn count(&self, k: Outcome) -> nat {
        block_count(*self, k)
    }

    open spec fn duration_of(&self) -> time::Duration {
        match self {
            BlockReport::Context(_, c) => c.duration,
            BlockReport::Example(_, e) => e.duration,
        }
    }

    fn is_success(&self) -> (r: bool) {
        !self.any(Outcome::Failed) && !self.any(Outcome::Ignored)
    }

    fn is_failure(&self) -> (r: bool) {
        self.any(Outcome::Failed)
    }

    fn get_passed(&self) -> (r: u32) {
        self.tally(Outcome::Passed)
    }

    fn get_failed(&self) -> (r: u32) {
        self.tally(Outcome::Failed)
    }

    fn get_ignored(&self) -> (r: u32) {
        self.tally(Outcome::Ignored)
    }

    fn get_duration(&self) -> (r: time::Duration) {
        match self {
            BlockReport::Context(_, report) => report.duration,
            BlockReport::Example(_, report) => report.duration,
        }
    }
}

impl ContextReport {
    pub fn new(sub_reports: Vec<BlockReport>, duration: time::Duration) -> (r: ContextReport)
        ensures
            r.sub_reports@ == sub_reports@,
            r.duration == duration,
    {
        ContextReport { sub_reports, duration }
    }

    pub open spec fn blocks(&self) -> Seq<BlockReport> {
        self.sub_reports@
    }

    /// The reports of the blocks, in the order of their declaration.
    pub fn get_blocks(&self) -> (r: &[BlockReport])
        ensures
            r@ == self.sub_reports@,
    {
        self.sub_reports.as_slice()
    }

    fn any(&self, k: Outcome) -> (r: bool)
        ensures
            r == (blocks_count(self.sub_reports@, k) > 0),
        decreases self,
    {
        let mut i: usize = 0;
        while i < self.sub_reports.len()
            invariant
                0 <= i <= self.sub_reports@.len(),
                blocks_count(self.sub_reports@.take(i as int), k) == 0,
            decreases self.sub_reports@.len() - i,
        {
            proof {
                lemma_blocks_count_prefix(self.sub_reports@, i as int, k);
            }
            if self.sub_reports[i].any(k) {
                return true;
            }
            i += 1;
        }
        assert(self.sub_reports@.take(i as int) =~= self.sub_reports@);
        false
    }

    fn tally(&self, k: Outcome) -> (r: u32)
        requires
            blocks_count(self.sub_reports@, k) <= u32::MAX,
        ensures
            r == blocks_count(self.sub_reports@, k),
        decreases self,
    {
        let mut total: u32 = 0;
        let mut i: usize = 0;
        while i < self.sub_reports.len()
            invariant
                0 <= i <= self.sub_reports@.len(),
                blocks_count(self.sub_reports@, k) <= u32::MAX,
                total == blocks_count(self.sub_reports@.take(i as int), k),
            decreases self.sub_reports@.len() - i,
        {
            proof {
                lemma_blocks_count_prefix(self.sub_reports@, i as int, k);
            }
            let n = self.sub_reports[i].tally(k);
            total = total + n;
            i += 1;
        }
        assert(self.sub_reports@.take(i as int) =~= self.sub_reports@);
        total
    }
}

impl Report for ContextReport {
    open spec fn count(&self, k: Outcome) -> nat {
        blocks_count(self.sub_reports@, k)
    }

    open spec fn duration_of(&self) -> time::Duration {
        self.duration
    }

    fn is_success(&self) -> (r: bool) {
        !self.any(Outcome::Failed) && !self.any(Outcome::Ignored)
    }

    fn is_failure(&self) -> (r: bool) {
        self.any(Outcome::Failed)
    }

    fn get_passed(&self) -> (r: u32) {
        self.tally(Outcome::Passed)
    }

    fn get_failed(&self) -> (r: u32) {
        self.tally(Outcome::Failed)
    }

    fn get_ignored(&self) -> (r: u32) {
        self.tally(Outcome::Ignored)
    }

    fn get_duration(&self) -> (r: time::Duration) {
        self.duration
    }
}

impl ContextReport {
    /// The number of examples under this context with outcome `k`, where it
    /// fits in a `u32`.
    pub fn count_checked(&self, k: Outcome) -> (r: Option<u32>)
        ensures
            blocks_count(self.sub_reports@, k) <= u32::MAX ==> r == Some(
                blocks_count(self.sub_reports@, k) as u32,
            ),
            blocks_count(self.sub_reports@, k) > u32::MAX ==> r is None,
        decreases self,
    {
        let mut total: u32 = 0;
        let mut i: usize = 0;
        while i < self.sub_reports.len()
            invariant
                0 <= i <= self.sub_reports@.len(),
                total == blocks_count(self.sub_reports@.take(i as int), k),
            decreases self.sub_reports@.len() - i,
        {
            proof {
                lemma_blocks_count_prefix(self.sub_reports@, i as int, k);
            }
            match self.sub_reports[i].count_checked(k) {
                Some(n) => match total.checked_add(n) {
                    Some(sum) => {
                        total = sum;
                    },
                    None => {
                        return None;
                    },
                },
                None => {
                    return None;
                },
            }
            i += 1;
        }
        assert(self.sub_reports@.take(i as int) =~= self.sub_reports@);
        Some(total)
    }
}

impl SuiteReport {
    /// The number of examples under this suite with outcome `k`, where it
    /// fits in a `u32`.
    pub fn count_checked(&self, k: Outcome) -> (r: Option<u32>)
        ensures
            self.count(k) <= u32::MAX ==> r == Some(self.count(k) as u32),
            self.count(k) > u32::MAX ==> r is None,
    {
        self.context.count_checked(k)
    }

    pub fn new(header: SuiteHeader, context: ContextReport) -> (r: SuiteReport)
        ensures
            r.header == header,
            r.context == context,
    {
        SuiteReport { header, context }
    }

    pub open spec fn context_of(&self) -> ContextReport {
        self.context
    }

    pub open spec fn header_of(&self) -> SuiteHeader {
        self.header
    }

    pub fn get_header(&self) -> (r: &SuiteHeader)
        ensures
            *r == self.header,
    {
        &self.header
    }

    pub fn get_context(&self) -> (r: &ContextReport)
        ensures
            *r == self.context,
    {
        &self.context
    }
}

impl Report for SuiteReport {
    open spec fn count(&self, k: Outcome) -> nat {
        self.context.count(k)
    }

    open spec fn duration_of(&self) -> time::Duration {
        self.context.duration
    }

    fn is_success(&self) -> (r: bool) {
        self.context.is_success()
    }

    fn is_failure(&self) -> (r: bool) {
        self.context.is_failure()
    }

    fn get_passed(&self) -> (r: u32) {
        self.context.get_passed()
    }

    fn get_failed(&self) -> (r: u32) {
        self.context.get_failed()
    }

    fn get_ignored(&self) -> (r: u32) {
        self.context.get_ignored()
    }

    fn get_duration(&self) -> (r: time::Duration) {
        self.context.duration
    }
}

} // verus!
