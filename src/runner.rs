//! The runner walks a suite's tree, runs hooks and examples, and folds what
//! they gave into reports.

use vstd::pervasive::strictly_cloned;
use vstd::prelude::*;

use crate::block::{Block, Context, Example, Suite};
use crate::clock::{now, span};
use crate::header::{ContextHeader, ExampleHeader, SuiteHeader};
use crate::parallel::par_map_indices;
use crate::report::{
    BlockReport, ContextReport, ExampleReport, ExampleResult, Outcome, Report, SuiteReport,
};

verus! {

broadcast use vstd::std_specs::vec::group_vec_axioms, vstd::seq::group_seq_axioms;

/// A runner's options.
pub struct Configuration {
    /// Whether the blocks of a context are evaluated on several threads.
    pub parallel: bool,
    /// Whether a failed run should end the process with a failing status.
    pub exit_on_failure: bool,
}

impl Default for Configuration {
    /// Both options on.
    fn default() -> (r: Configuration)
        ensures
            r.parallel,
            r.exit_on_failure,
    {
        Configuration { parallel: true, exit_on_failure: true }
    }
}

/// Builds a [`Configuration`]; an option left unset is on.
pub struct ConfigurationBuilder {
    pub parallel: Option<bool>,
    pub exit_on_failure: Option<bool>,
}

impl Default for ConfigurationBuilder {
    /// No option set.
    fn default() -> (r: ConfigurationBuilder)
        ensures
            r.parallel is None,
            r.exit_on_failure is None,
    {
        ConfigurationBuilder { parallel: None, exit_on_failure: None }
    }
}

impl ConfigurationBuilder {
    pub fn parallel(self, value: bool) -> (r: ConfigurationBuilder)
        ensures
            r.parallel == Some(value),
            r.exit_on_failure == self.exit_on_failure,
    {
        ConfigurationBuilder { parallel: Some(value), exit_on_failure: self.exit_on_failure }
    }

    pub fn exit_on_failure(self, value: bool) -> (r: ConfigurationBuilder)
        ensures
            r.exit_on_failure == Some(value),
            r.parallel == self.parallel,
    {
        ConfigurationBuilder { parallel: self.parallel, exit_on_failure: Some(value) }
    }

    /// The configuration, with every unset option on. It never fails.
    pub fn build(&self) -> (r: Result<Configuration, String>)
        ensures
            r matches Ok(c) && c.parallel == self.parallel.unwrap_or(true) && c.exit_on_failure
                == self.exit_on_failure.unwrap_or(true),
    {
        let parallel = match self.parallel {
            Some(v) => v,
            None => true,
        };
        let exit_on_failure = match self.exit_on_failure {
            Some(v) => v,
            None => true,
        };
        Ok(Configuration { parallel, exit_on_failure })
    }
}

/// Is told of the runner's progress: entering and leaving the suite, each
/// context with a header, and each example. Each method does nothing unless
/// an implementation says otherwise. In a parallel run the methods may be
/// called from several threads at once.
pub trait RunnerObserver {
    fn enter_suite(&self, header: &SuiteHeader) {
    }

    fn exit_suite(&self, header: &SuiteHeader, report: &SuiteReport) {
    }

    fn enter_context(&self, header: &ContextHeader) {
    }

    fn exit_context(&self, header: &ContextHeader, report: &ContextReport) {
    }

    fn enter_example(&self, header: &ExampleHeader) {
    }

    fn exit_example(&self, header: &ExampleHeader, report: &ExampleReport) {
    }
}

/// One of the six points at which observers are told of progress.
pub enum Event<'a> {
    EnterSuite(&'a SuiteHeader),
    ExitSuite(&'a SuiteHeader, &'a SuiteReport),
    EnterContext(&'a ContextHeader),
    ExitContext(&'a ContextHeader, &'a ContextReport),
    EnterExample(&'a ExampleHeader),
    ExitExample(&'a ExampleHeader, &'a ExampleReport),
}

/// Observer `o` was told of `e`: the method for `e` was called on it.
pub open spec fn told<O: RunnerObserver>(o: O, e: Event) -> bool {
    match e {
        Event::EnterSuite(h) => call_ensures(O::enter_suite, (&o, h), ()),
        Event::ExitSuite(h, r) => call_ensures(O::exit_suite, (&o, h, r), ()),
        Event::EnterContext(h) => call_ensures(O::enter_context, (&o, h), ()),
        Event::ExitContext(h, r) => call_ensures(O::exit_context, (&o, h, r), ()),
        Event::EnterExample(h) => call_ensures(O::enter_example, (&o, h), ()),
        Event::ExitExample(h, r) => call_ensures(O::exit_example, (&o, h, r), ()),
    }
}

/// Every observer of `obs` was told of `e`.
pub open spec fn all_told<O: RunnerObserver>(obs: Seq<O>, e: Event) -> bool {
    forall|i: int| 0 <= i < obs.len() ==> #[trigger] told(obs[i], e)
}

/// The observers were told of the entry into and the exit from each context
/// with a header under the report, with its report, and of each example, with
/// its report.
pub open spec fn context_told<O: RunnerObserver>(
    obs: Seq<O>,
    h: Option<ContextHeader>,
    r: ContextReport,
) -> bool
    decreases r, 1int,
{
    &&& h matches Some(hh) ==> all_told(obs, Event::EnterContext(&hh)) && all_told(
        obs,
        Event::ExitContext(&hh, &r),
    )
    &&& forall|j: int|
        0 <= j < r.sub_reports@.len() ==> block_told(obs, #[trigger] r.sub_reports@[j])
}

/// The observers were told of the block of report `b` and of all under it.
pub open spec fn block_told<O: RunnerObserver>(obs: Seq<O>, b: BlockReport) -> bool
    decreases b, 0int,
{
    match b {
        BlockReport::Context(h, cr) => context_told(obs, h, cr),
        BlockReport::Example(h, er) => all_told(obs, Event::EnterExample(&h)) && all_told(
            obs,
            Event::ExitExample(&h, &er),
        ),
    }
}

/// Every hook of the sequence accepts every environment.
pub open spec fn hooks_callable<T, H: Fn(T) -> T>(hooks: Seq<H>) -> bool {
    forall|i: int, e: T| 0 <= i < hooks.len() ==> #[trigger] hooks[i].requires((e,))
}

/// Every hook and every body under the context accepts every environment.
pub open spec fn context_callable<T, H: Fn(T) -> T, B: Fn(&T) -> ExampleResult>(
    c: Context<H, B>,
) -> bool
    decreases c,
{
    &&& hooks_callable::<T, H>(c.before_all@)
    &&& hooks_callable::<T, H>(c.before_each@)
    &&& hooks_callable::<T, H>(c.after_each@)
    &&& hooks_callable::<T, H>(c.after_all@)
    &&& forall|i: int|
        0 <= i < c.blocks@.len() ==> match #[trigger] c.blocks@[i] {
            Block::Context(child) => context_callable::<T, H, B>(child),
            Block::Example(ex) => forall|e: &T| #[trigger] ex.function.requires((e,)),
        }
}

/// Running the hooks in order, each once, can take the environment from `a`
/// to `b`: each hook gives its result to the next.
pub open spec fn hooks_ran<T, H: Fn(T) -> T>(hooks: Seq<H>, a: T, b: T) -> bool
    decreases hooks.len(),
{
    if hooks.len() == 0 {
        a == b
    } else {
        exists|m: T| hooks_ran(hooks.drop_last(), a, m) && #[trigger] hooks.last().ensures((m,), b)
    }
}

/// A run of context `c` on environment `e0` can give the report `r` and leave
/// the environment `e3`: its `before_all` hooks take `e0` to some `e1`, each
/// block is evaluated from `e1`, and its `after_all` hooks take `e1` to `e3`.
pub open spec fn context_ran<T: Clone, H: Fn(T) -> T, B: Fn(&T) -> ExampleResult>(
    c: Context<H, B>,
    e0: T,
    e3: T,
    r: ContextReport,
) -> bool
    decreases c, 1int,
{
    exists|e1: T|
        #[trigger] hooks_ran(c.before_all@, e0, e1) && blocks_ran::<T, H, B>(c, e1, r)
            && hooks_ran(c.after_all@, e1, e3)
}

/// One report per block of `c`, in the order of declaration, each that of
/// the block evaluated from `e`.
pub open spec fn blocks_ran<T: Clone, H: Fn(T) -> T, B: Fn(&T) -> ExampleResult>(
    c: Context<H, B>,
    e: T,
    r: ContextReport,
) -> bool
    decreases c, 0int, 1int,
{
    &&& r.sub_reports@.len() == c.blocks@.len()
    &&& forall|i: int|
        0 <= i < c.blocks@.len() ==> block_ran::<T, H, B>(c, i, e, #[trigger] r.sub_reports@[i])
}

/// Block `i` of `c`, evaluated from `e`, can give the report `b`: its copy
/// is a clone of `e`, the `before_each` hooks of `c` take it to `b1`, the
/// block runs on `b1` and leaves `b2`, and the `after_each` hooks of `c` run
/// on `b2`. An example runs its body on `b1`; a context runs from `b1`.
pub open spec fn block_ran<T: Clone, H: Fn(T) -> T, B: Fn(&T) -> ExampleResult>(
    c: Context<H, B>,
    i: int,
    e: T,
    b: BlockReport,
) -> bool
    decreases c, 0int, 0int,
{
    0 <= i < c.blocks@.len() && exists|copy: T, b1: T, b2: T, b3: T|
        #![trigger strictly_cloned(e, copy), hooks_ran(c.before_each@, copy, b1), hooks_ran(c.after_each@, b2, b3)]
        strictly_cloned(e, copy) && hooks_ran(c.before_each@, copy, b1) && hooks_ran(
            c.after_each@,
            b2,
            b3,
        ) && match c.blocks@[i] {
            Block::Example(ex) => match b {
                BlockReport::Example(h, er) => h == ex.header && b2 == b1
                    && ex.function.ensures((&b1,), er.result),
                BlockReport::Context(_, _) => false,
            },
            Block::Context(child) => match b {
                BlockReport::Context(h, cr) => h == child.header && context_ran::<T, H, B>(
                    child,
                    b1,
                    b2,
                    cr,
                ),
                BlockReport::Example(_, _) => false,
            },
        }
}

/// Runs the hooks in order on `env`, each once, and returns what the last
/// one gave.
fn run_hooks<T, H: Fn(T) -> T>(hooks: &Vec<H>, env: T) -> (r: T)
    requires
        hooks_callable::<T, H>(hooks@),
    ensures
        hooks_ran(hooks@, env, r),
{
    let ghost start = env;
    let mut env = env;
    let mut i: usize = 0;
    assert(hooks@.take(0).len() == 0);
    while i < hooks.len()
        invariant
            hooks_callable::<T, H>(hooks@),
            i <= hooks@.len(),
            hooks_ran(hooks@.take(i as int), start, env),
        decreases hooks@.len() - i,
    {
        let ghost before = env;
        let hook = &hooks[i];
        env = hook(env);
        proof {
            let next = hooks@.take(i + 1);
            assert(next.drop_last() =~= hooks@.take(i as int));
            assert(next.last() == hooks@[i as int]);
            assert(hooks_ran(next.drop_last(), start, before) && next.last().ensures(
                (before,),
                env,
            ));
        }
        i += 1;
    }
    assert(hooks@.take(i as int) =~= hooks@);
    env
}

/// Runs a suite's examples, telling observers of its progress.
pub struct Runner<O> {
    pub configuration: Configuration,
    pub observers: Vec<O>,
    /// Whether some run of this runner has failed.
    pub failed: bool,
}

impl<O: RunnerObserver> Runner<O> {
    pub fn new(configuration: Configuration, observers: Vec<O>) -> (r: Runner<O>)
        ensures
            r.configuration == configuration,
            r.observers@ == observers@,
            !r.failed,
    {
        Runner { configuration, observers, failed: false }
    }

    /// Adds an observer, told of progress after those already there.
    pub fn add_event_handler(&mut self, observer: O)
        ensures
            final(self).observers@ == old(self).observers@.push(observer),
            final(self).configuration == old(self).configuration,
            final(self).failed == old(self).failed,
    {
        self.observers.push(observer);
    }

    /// Whether the process should end with a failing status: some run failed
    /// and the configuration asks for it.
    pub fn should_exit(&self) -> (r: bool)
        ensures
            r == (self.failed && self.configuration.exit_on_failure),
    {
        self.failed && self.configuration.exit_on_failure
    }

    /// Runs the suite from a clone of its environment and reports it, in
    /// either configuration, telling every observer of the suite, of each
    /// context with a header and of each example. The runner remembers
    /// whether the run failed.
    pub fn run<T, H, B>(&mut self, suite: &Suite<T, H, B>) -> (r: SuiteReport) where
        T: Clone + Send + Sync,
        H: Fn(T) -> T + Send + Sync,
        B: Fn(&T) -> ExampleResult + Send + Sync,
        O: Send + Sync,

        requires
            context_callable::<T, H, B>(suite.context),
        ensures
            r.header == suite.header,
            exists|e0: T, e3: T|
                strictly_cloned(suite.environment, e0) && #[trigger] context_ran::<T, H, B>(
                    suite.context,
                    e0,
                    e3,
                    r.context,
                ),
            all_told(old(self).observers@, Event::EnterSuite(&suite.header)),
            all_told(old(self).observers@, Event::ExitSuite(&suite.header, &r)),
            context_told(old(self).observers@, suite.context.header, r.context),
            final(self).failed == (old(self).failed || r.count(Outcome::Failed) > 0),
            final(self).configuration == old(self).configuration,
            final(self).observers@ == old(self).observers@,
    {
        let environment = suite.environment.clone();
        let ghost e0 = environment;
        self.broadcast(&Event::EnterSuite(&suite.header));
        let (context, after) = self.visit_context(&suite.context, environment);
        let report = SuiteReport::new(suite.header, context);
        self.broadcast(&Event::ExitSuite(&suite.header, &report));
        assert(strictly_cloned(suite.environment, e0) && context_ran::<T, H, B>(
            suite.context,
            e0,
            after,
            report.context,
        ));
        let failed = report.is_failure();
        self.failed = self.failed || failed;
        report
    }

    /// Runs the `before_all` hooks on `env`, evaluates each block from what
    /// they gave, then runs the `after_all` hooks on it and returns what
    /// they gave. Nothing a block does reaches this environment.
    fn visit_context<T, H, B>(&self, context: &Context<H, B>, env: T) -> (r: (ContextReport, T)) where
        T: Clone + Send + Sync,
        H: Fn(T) -> T + Send + Sync,
        B: Fn(&T) -> ExampleResult + Send + Sync,
        O: Send + Sync,

        requires
            context_callable::<T, H, B>(*context),
        ensures
            context_ran::<T, H, B>(*context, env, r.1, r.0),
            context_told(self.observers@, context.header, r.0),
        decreases context, 2int,
    {
        if let Some(header) = &context.header {
            self.broadcast(&Event::EnterContext(header));
        }
        let env = run_hooks(&context.before_all, env);
        let start = now();
        let reports = if self.configuration.parallel {
            self.evaluate_blocks_parallel(context, &env)
        } else {
            self.evaluate_blocks_serial(context, &env)
        };
        let end = now();
        let ghost e1 = env;
        let env = run_hooks(&context.after_all, env);
        let report = ContextReport::new(reports, span(&start, end));
        if let Some(header) = &context.header {
            self.broadcast(&Event::ExitContext(header, &report));
        }
        assert(blocks_ran::<T, H, B>(*context, e1, report));
        (report, env)
    }

    /// Evaluates the blocks one after the other, in order, each from its own
    /// clone of `env`, which is only read here.
    fn evaluate_blocks_serial<T, H, B>(&self, context: &Context<H, B>, env: &T) -> (r: Vec<
        BlockReport,
    >) where
        T: Clone + Send + Sync,
        H: Fn(T) -> T + Send + Sync,
        B: Fn(&T) -> ExampleResult + Send + Sync,
        O: Send + Sync,

        requires
            context_callable::<T, H, B>(*context),
        ensures
            r@.len() == context.blocks@.len(),
            forall|i: int|
                0 <= i < r@.len() ==> block_ran::<T, H, B>(*context, i, *env, #[trigger] r@[i]),
            forall|i: int| 0 <= i < r@.len() ==> block_told(self.observers@, #[trigger] r@[i]),
        decreases context, 1int,
    {
        let mut reports: Vec<BlockReport> = Vec::new();
        let mut i: usize = 0;
        while i < context.blocks.len()
            invariant
                context_callable::<T, H, B>(*context),
                i <= context.blocks@.len(),
                reports@.len() == i,
                forall|j: int|
                    0 <= j < i ==> block_ran::<T, H, B>(*context, j, *env, #[trigger] reports@[j]),
                forall|j: int| 0 <= j < i ==> block_told(self.observers@, #[trigger] reports@[j]),
            decreases context.blocks@.len() - i,
        {
            proof {
                assert(decreases_to!(context => context.blocks@[i as int]));
            }
            let report = self.evaluate_block(i, context, env);
            reports.push(report);
            i += 1;
        }
        reports
    }

    /// Evaluates the blocks on rayon's threads, possibly at once, each from
    /// its own clone of `env`, which is only read here; the reports keep the
    /// order of the blocks.
    fn evaluate_blocks_parallel<T, H, B>(&self, context: &Context<H, B>, env: &T) -> (r: Vec<
        BlockReport,
    >) where
        T: Clone + Send + Sync,
        H: Fn(T) -> T + Send + Sync,
        B: Fn(&T) -> ExampleResult + Send + Sync,
        O: Send + Sync,

        requires
            context_callable::<T, H, B>(*context),
        ensures
            r@.len() == context.blocks@.len(),
            forall|i: int|
                0 <= i < r@.len() ==> block_ran::<T, H, B>(*context, i, *env, #[trigger] r@[i]),
            forall|i: int| 0 <= i < r@.len() ==> block_told(self.observers@, #[trigger] r@[i]),
        decreases context, 1int,
    {
        let evaluate = |i: usize| -> (r: BlockReport)
            requires
                i < context.blocks@.len(),
            ensures
                block_ran::<T, H, B>(*context, i as int, *env, r),
                block_told(self.observers@, r),
            {
                proof {
                    assert(decreases_to!(context => context.blocks@[i as int]));
                }
                self.evaluate_block(i, context, env)
            };
        let results = par_map_indices(context.blocks.len(), evaluate);
        assert forall|i: int| 0 <= i < results@.len() implies block_ran::<T, H, B>(
            *context,
            i,
            *env,
            #[trigger] results@[i],
        ) && block_told(self.observers@, results@[i]) by {
            assert(evaluate.ensures((i as usize,), results@[i]));
        }
        results
    }

    /// Evaluates block `i` of `context` from its own clone of `env`: the
    /// context's `before_each` hooks on the clone, the block, then the
    /// `after_each` hooks on what the block left.
    fn evaluate_block<T, H, B>(&self, i: usize, context: &Context<H, B>, env: &T) -> (r:
        BlockReport) where
        T: Clone + Send + Sync,
        H: Fn(T) -> T + Send + Sync,
        B: Fn(&T) -> ExampleResult + Send + Sync,
        O: Send + Sync,

        requires
            context_callable::<T, H, B>(*context),
            i < context.blocks@.len(),
        ensures
            block_ran::<T, H, B>(*context, i as int, *env, r),
            block_told(self.observers@, r),
        decreases context.blocks@[i as int], 0int,
    {
        let copy = env.clone();
        let ghost c0 = copy;
        let branch = run_hooks(&context.before_each, copy);
        let ghost b1 = branch;
        let (report, left) = match &context.blocks[i] {
            Block::Example(example) => {
                let example_report = self.visit_example(example, &branch);
                (BlockReport::Example(example.header, example_report), branch)
            },
            Block::Context(child) => {
                let (child_report, left) = self.visit_context(child, branch);
                (BlockReport::Context(child.header, child_report), left)
            },
        };
        let ghost b2 = left;
        let done = run_hooks(&context.after_each, left);
        assert(strictly_cloned(*env, c0) && hooks_ran(context.before_each@, c0, b1) && hooks_ran(
            context.after_each@,
            b2,
            done,
        ));
        report
    }

    fn visit_example<T, B>(&self, example: &Example<B>, env: &T) -> (r: ExampleReport) where
        B: Fn(&T) -> ExampleResult,

        requires
            forall|e: &T| #[trigger] example.function.requires((e,)),
        ensures
            example.function.ensures((env,), r.result),
            all_told(self.observers@, Event::EnterExample(&example.header)),
            all_told(self.observers@, Event::ExitExample(&example.header, &r)),
    {
        self.broadcast(&Event::EnterExample(&example.header));
        let start = now();
        let result = (example.function)(env);
        let end = now();
        let report = ExampleReport::new(result, span(&start, end));
        self.broadcast(&Event::ExitExample(&example.header, &report));
        report
    }

    /// Tells each observer of `event`, in the order of registration.
    fn broadcast(&self, event: &Event)
        ensures
            all_told(self.observers@, *event),
    {
        let mut i: usize = 0;
        while i < self.observers.len()
            invariant
                i <= self.observers@.len(),
                forall|j: int| 0 <= j < i ==> #[trigger] told(self.observers@[j], *event),
            decreases self.observers@.len() - i,
        {
            let observer = &self.observers[i];
            match event {
                Event::EnterSuite(h) => observer.enter_suite(h),
                Event::ExitSuite(h, r) => observer.exit_suite(h, r),
                Event::EnterContext(h) => observer.enter_context(h),
                Event::ExitContext(h, r) => observer.exit_context(h, r),
                Event::EnterExample(h) => observer.enter_example(h),
                Event::ExitExample(h, r) => observer.exit_example(h, r),
            }
            i += 1;
        }
    }
}

} // verus!
