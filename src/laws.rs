//! Laws of reports and of runs, stated over the spec functions that the
//! contracts of the report getters and of `Runner::run` use.

use vstd::prelude::*;

use vstd::pervasive::strictly_cloned;

use crate::block::{Block, Context};
use crate::report::{
    block_count, blocks_count, blocks_total, BlockReport, ContextReport, ExampleResult, Outcome,
    Report,
};
use crate::runner::{block_ran, blocks_ran, context_ran, hooks_ran};

verus! {

broadcast use vstd::std_specs::vec::group_vec_axioms, vstd::seq::group_seq_axioms;

proof fn lemma_blocks_total(s: Seq<BlockReport>)
    ensures
        blocks_count(s, Outcome::Passed) + blocks_count(s, Outcome::Failed) + blocks_count(
            s,
            Outcome::Ignored,
        ) == blocks_total(s),
    decreases s.len(),
{
    if s.len() > 0 {
        lemma_blocks_total(s.drop_last());
    }
}

/// Aggregation: the examples counted under a context report, passed, failed
/// and ignored together, are the sum of those counted under each of its
/// blocks.
pub proof fn aggregation_law(c: ContextReport)
    ensures
        c.count(Outcome::Passed) + c.count(Outcome::Failed) + c.count(Outcome::Ignored)
            == blocks_total(c.sub_reports@),
{
    lemma_blocks_total(c.sub_reports@);
}

/// The body can give a result with outcome `k`.
pub open spec fn may_give<T, B: Fn(&T) -> ExampleResult>(f: B, k: Outcome) -> bool {
    exists|e: &T, r: ExampleResult| #[trigger] f.ensures((e,), r) && r.outcome() == k
}

/// Every result that the body can give has outcome `k`.
pub open spec fn always_gives<T, B: Fn(&T) -> ExampleResult>(f: B, k: Outcome) -> bool {
    forall|e: &T, r: ExampleResult| #[trigger] f.ensures((e,), r) ==> r.outcome() == k
}

/// The number of examples under the blocks whose body always gives outcome `k`.
pub open spec fn examples_always<T, H, B: Fn(&T) -> ExampleResult>(
    s: Seq<Block<H, B>>,
    k: Outcome,
) -> nat
    decreases s,
{
    if s.len() == 0 {
        0
    } else {
        examples_always::<T, H, B>(s.drop_last(), k) + match s.last() {
            Block::Context(c) => examples_always::<T, H, B>(c.blocks@, k),
            Block::Example(ex) => if always_gives::<T, B>(ex.function, k) {
                1nat
            } else {
                0nat
            },
        }
    }
}

/// The number of examples under the blocks whose body can give outcome `k`.
pub open spec fn examples_may<T, H, B: Fn(&T) -> ExampleResult>(
    s: Seq<Block<H, B>>,
    k: Outcome,
) -> nat
    decreases s,
{
    if s.len() == 0 {
        0
    } else {
        examples_may::<T, H, B>(s.drop_last(), k) + match s.last() {
            Block::Context(c) => examples_may::<T, H, B>(c.blocks@, k),
            Block::Example(ex) => if may_give::<T, B>(ex.function, k) {
                1nat
            } else {
                0nat
            },
        }
    }
}

proof fn lemma_bounds<T: Clone, H: Fn(T) -> T, B: Fn(&T) -> ExampleResult>(
    c: Context<H, B>,
    e: T,
    r: ContextReport,
    n: int,
    k: Outcome,
)
    requires
        blocks_ran::<T, H, B>(c, e, r),
        0 <= n <= c.blocks@.len(),
    ensures
        examples_always::<T, H, B>(c.blocks@.take(n), k) <= blocks_count(
            r.sub_reports@.take(n),
            k,
        ),
        blocks_count(r.sub_reports@.take(n), k) <= examples_may::<T, H, B>(c.blocks@.take(n), k),
    decreases c, n,
{
    if n > 0 {
        let j = n - 1;
        lemma_bounds::<T, H, B>(c, e, r, j, k);
        assert(c.blocks@.take(n).drop_last() =~= c.blocks@.take(j));
        assert(r.sub_reports@.take(n).drop_last() =~= r.sub_reports@.take(j));
        assert(c.blocks@.take(n).last() == c.blocks@[j]);
        assert(r.sub_reports@.take(n).last() == r.sub_reports@[j]);
        let b = r.sub_reports@[j];
        assert(block_ran::<T, H, B>(c, j, e, b));
        let (copy, b1, b2, b3) = choose|copy: T, b1: T, b2: T, b3: T|
            #![trigger strictly_cloned(e, copy), hooks_ran(c.before_each@, copy, b1), hooks_ran(c.after_each@, b2, b3)]
            strictly_cloned(e, copy) && hooks_ran(c.before_each@, copy, b1) && hooks_ran(
                c.after_each@,
                b2,
                b3,
            ) && match c.blocks@[j] {
                Block::Example(ex) => match b {
                    BlockReport::Example(h, er) => h == ex.header && b2 == b1
                        && ex.function.ensures((&b1,), er.result),
                    BlockReport::Context(_, _) => false,
                },
                Block::Context(child) => match b {
                    BlockReport::Context(h, cr) => h == child.header && context_ran::<T, H, B>(
                        child,
                        b1,
                        b2,
                        cr,
                    ),
                    BlockReport::Example(_, _) => false,
                },
            };
        match c.blocks@[j] {
            Block::Context(child) => {
                let cr = b->Context_1;
                let e1 = choose|e1: T|
                    #[trigger] hooks_ran(child.before_all@, b1, e1) && blocks_ran::<T, H, B>(
                        child,
                        e1,
                        cr,
                    ) && hooks_ran(child.after_all@, e1, b2);
                assert(decreases_to!(c => c.blocks@[j]));
                lemma_bounds::<T, H, B>(child, e1, cr, child.blocks@.len() as int, k);
                assert(child.blocks@.take(child.blocks@.len() as int) =~= child.blocks@);
                assert(cr.sub_reports@.take(cr.sub_reports@.len() as int) =~= cr.sub_reports@);
                assert(block_count(b, k) == blocks_count(cr.sub_reports@, k));
            },
            Block::Example(ex) => {
                let er = b->Example_1;
                assert(ex.function.ensures((&b1,), er.result));
                assert(block_count(b, k) == er.result.count_of(k));
            },
        }
    }
}

/// Outcomes are kept: in a run of a context, the examples reported with
/// outcome `k` are at least those whose body always gives `k`, and at most
/// those whose body can give `k`.
pub proof fn outcome_bounds_law<T: Clone, H: Fn(T) -> T, B: Fn(&T) -> ExampleResult>(
    c: Context<H, B>,
    e0: T,
    e3: T,
    r: ContextReport,
    k: Outcome,
)
    requires
        context_ran::<T, H, B>(c, e0, e3, r),
    ensures
        examples_always::<T, H, B>(c.blocks@, k) <= r.count(k),
        r.count(k) <= examples_may::<T, H, B>(c.blocks@, k),
{
    let e1 = choose|e1: T|
        #[trigger] hooks_ran(c.before_all@, e0, e1) && blocks_ran::<T, H, B>(c, e1, r)
            && hooks_ran(c.after_all@, e1, e3);
    lemma_bounds::<T, H, B>(c, e1, r, c.blocks@.len() as int, k);
    assert(c.blocks@.take(c.blocks@.len() as int) =~= c.blocks@);
    assert(r.sub_reports@.take(r.sub_reports@.len() as int) =~= r.sub_reports@);
}

/// No failure: in a run of a context where no body can fail, no example is
/// reported failed, so the report is no failure.
pub proof fn no_failure_law<T: Clone, H: Fn(T) -> T, B: Fn(&T) -> ExampleResult>(
    c: Context<H, B>,
    e0: T,
    e3: T,
    r: ContextReport,
)
    requires
        context_ran::<T, H, B>(c, e0, e3, r),
        examples_may::<T, H, B>(c.blocks@, Outcome::Failed) == 0,
    ensures
        r.count(Outcome::Failed) == 0,
{
    outcome_bounds_law::<T, H, B>(c, e0, e3, r, Outcome::Failed);
}

/// Failures propagate: in a run of a context where some body always fails,
/// the report is a failure; and every example whose body always passes is
/// still counted as passed beside it.
pub proof fn failure_propagation_law<T: Clone, H: Fn(T) -> T, B: Fn(&T) -> ExampleResult>(
    c: Context<H, B>,
    e0: T,
    e3: T,
    r: ContextReport,
)
    requires
        context_ran::<T, H, B>(c, e0, e3, r),
        examples_always::<T, H, B>(c.blocks@, Outcome::Failed) >= 1,
    ensures
        r.count(Outcome::Failed) >= 1,
        r.count(Outcome::Passed) >= examples_always::<T, H, B>(c.blocks@, Outcome::Passed),
{
    outcome_bounds_law::<T, H, B>(c, e0, e3, r, Outcome::Failed);
    outcome_bounds_law::<T, H, B>(c, e0, e3, r, Outcome::Passed);
}

/// Parallel and serial runs agree. `Runner::run` promises `context_ran`
/// whichever the configuration, so of two runs of one context, one parallel
/// and one serial, where every body that can give an outcome always gives it,
/// both report the same number of examples with each outcome.
pub proof fn parallel_serial_law<T: Clone, H: Fn(T) -> T, B: Fn(&T) -> ExampleResult>(
    c: Context<H, B>,
    parallel: ContextReport,
    serial: ContextReport,
    e0: T,
    e3: T,
    f0: T,
    f3: T,
    k: Outcome,
)
    requires
        context_ran::<T, H, B>(c, e0, e3, parallel),
        context_ran::<T, H, B>(c, f0, f3, serial),
        forall|o: Outcome|
            examples_always::<T, H, B>(c.blocks@, o) == #[trigger] examples_may::<T, H, B>(
                c.blocks@,
                o,
            ),
    ensures
        parallel.count(k) == serial.count(k),
{
    outcome_bounds_law::<T, H, B>(c, e0, e3, parallel, k);
    outcome_bounds_law::<T, H, B>(c, f0, f3, serial, k);
    assert(examples_always::<T, H, B>(c.blocks@, k) == examples_may::<T, H, B>(c.blocks@, k));
}

/// Hook cardinality. A hook list that `hooks_ran` relates runs each of its
/// hooks exactly once, in order, each on what the one before it gave. A run
/// of a context (`context_ran`) holds one such run of its `before_all` and of
/// its `after_all` list, and each of its blocks (`block_ran`) one of its
/// `before_each` and of its `after_each` list, whatever lies under them.
pub proof fn hook_cardinality_law<T, H: Fn(T) -> T>(hooks: Seq<H>, a: T, b: T)
    requires
        hooks_ran(hooks, a, b),
    ensures
        exists|states: Seq<T>|
            #![trigger states.len()]
            states.len() == hooks.len() + 1 && states[0] == a && states.last() == b && forall|
                i: int,
            |
                0 <= i < hooks.len() ==> #[trigger] hooks[i].ensures((states[i],), states[i + 1]),
    decreases hooks.len(),
{
    if hooks.len() == 0 {
        assert(seq![a].len() == 1 && seq![a][0] == a && seq![a].last() == b);
    } else {
        let m = choose|m: T|
            hooks_ran(hooks.drop_last(), a, m) && #[trigger] hooks.last().ensures((m,), b);
        hook_cardinality_law(hooks.drop_last(), a, m);
        let s = choose|s: Seq<T>|
            #![trigger s.len()]
            s.len() == hooks.drop_last().len() + 1 && s[0] == a && s.last() == m && forall|
                i: int,
            |
                0 <= i < hooks.drop_last().len() ==> #[trigger] hooks.drop_last()[i].ensures(
                    (s[i],),
                    s[i + 1],
                );
        let states = s.push(b);
        assert forall|i: int| 0 <= i < hooks.len() implies #[trigger] hooks[i].ensures(
            (states[i],),
            states[i + 1],
        ) by {
            if i < hooks.len() - 1 {
                assert(hooks.drop_last()[i] == hooks[i]);
            }
        }
        assert(states.len() == hooks.len() + 1 && states[0] == a && states.last() == b);
    }
}

/// Branch isolation. What a block's report says depends only on the
/// environment its context reached after its `before_all` hooks, on the
/// context's `before_each` and `after_each` hooks and on the block itself:
/// the same report is one of the same block in any context with those
/// hooks, for instance the context without some other block. Nothing that
/// another block does to its own copy reaches it.
pub proof fn branch_isolation_law<T: Clone, H: Fn(T) -> T, B: Fn(&T) -> ExampleResult>(
    c: Context<H, B>,
    d: Context<H, B>,
    e: T,
    i: int,
    j: int,
    b: BlockReport,
)
    requires
        block_ran::<T, H, B>(c, i, e, b),
        d.before_each@ == c.before_each@,
        d.after_each@ == c.after_each@,
        0 <= j < d.blocks@.len(),
        d.blocks@[j] == c.blocks@[i],
    ensures
        block_ran::<T, H, B>(d, j, e, b),
{
    let (copy, b1, b2, b3) = choose|copy: T, b1: T, b2: T, b3: T|
        #![trigger strictly_cloned(e, copy), hooks_ran(c.before_each@, copy, b1), hooks_ran(c.after_each@, b2, b3)]
        strictly_cloned(e, copy) && hooks_ran(c.before_each@, copy, b1) && hooks_ran(
            c.after_each@,
            b2,
            b3,
        ) && match c.blocks@[i] {
            Block::Example(ex) => match b {
                BlockReport::Example(h, er) => h == ex.header && b2 == b1
                    && ex.function.ensures((&b1,), er.result),
                BlockReport::Context(_, _) => false,
            },
            Block::Context(child) => match b {
                BlockReport::Context(h, cr) => h == child.header && context_ran::<T, H, B>(
                    child,
                    b1,
                    b2,
                    cr,
                ),
                BlockReport::Example(_, _) => false,
            },
        };
    assert(strictly_cloned(e, copy) && hooks_ran(d.before_each@, copy, b1) && hooks_ran(
        d.after_each@,
        b2,
        b3,
    ));
}

} // verus!
