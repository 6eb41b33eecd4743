//! The tree of a test suite: suites hold a root context, contexts hold blocks
//! and hooks, blocks are contexts or examples.
//!
//! The tree is generic over the type `H` of its hooks, which take the
//! environment and give back the changed one (`Fn(T) -> T`), and the type
//! `B` of its example bodies, which read it and give a result
//! (`Fn(&T) -> ExampleResult`). A suite that mixes closures of several kinds
//! uses boxed closures for both.

use vstd::prelude::*;

use crate::header::{
    ContextHeader, ContextLabel, ExampleHeader, ExampleLabel, SuiteHeader, SuiteLabel,
};

verus! {

broadcast use vstd::std_specs::vec::group_vec_axioms, vstd::seq::group_seq_axioms;

/// An example: a named body, the smallest unit of a suite.
pub struct Example<B> {
    pub header: ExampleHeader,
    pub function: B,
}

/// A block: a nested context or an example.
pub enum Block<H, B> {
    Context(Context<H, B>),
    Example(Example<B>),
}

/// A context: an optional header, its blocks in the order of their
/// declaration, and four lists of hooks, each in the order of registration.
/// A context without a header is an anonymous scope.
pub struct Context<H, B> {
    pub header: Option<ContextHeader>,
    pub blocks: Vec<Block<H, B>>,
    pub before_all: Vec<H>,
    pub before_each: Vec<H>,
    pub after_all: Vec<H>,
    pub after_each: Vec<H>,
}

/// A suite: a header, the initial environment and the root context.
pub struct Suite<T, H, B> {
    pub header: SuiteHeader,
    pub environment: T,
    pub context: Context<H, B>,
}

/// The number of examples under a block.
pub open spec fn block_examples<H, B>(b: Block<H, B>) -> nat
    decreases b,
{
    match b {
        Block::Context(c) => blocks_examples(c.blocks@),
        Block::Example(_) => 1,
    }
}

/// The number of examples under a sequence of blocks.
pub open spec fn blocks_examples<H, B>(s: Seq<Block<H, B>>) -> nat
    decreases s,
{
    if s.len() == 0 {
        0
    } else {
        blocks_examples(s.drop_last()) + block_examples(s.last())
    }
}

proof fn lemma_blocks_examples_prefix<H, B>(s: Seq<Block<H, B>>, i: int)
    requires
        0 <= i < s.len(),
    ensures
        blocks_examples(s.take(i + 1)) == blocks_examples(s.take(i)) + block_examples(s[i]),
        blocks_examples(s.take(i + 1)) <= blocks_examples(s),
    decreases s.len(),
{
    assert(s.take(i + 1).drop_last() =~= s.take(i));
    if i + 1 < s.len() {
        lemma_blocks_examples_prefix(s.drop_last(), i);
        assert(s.drop_last().take(i + 1) =~= s.take(i + 1));
    } else {
        assert(s.take(i + 1) =~= s);
    }
}

impl<H, B> Block<H, B> {
    pub fn num_examples(&self) -> (r: usize)
        requires
            block_examples(*self) <= usize::MAX,
        ensures
            r == block_examples(*self),
        decreases self,
    {
        match self {
            Block::Context(context) => context.num_examples(),
            Block::Example(_) => 1,
        }
    }
}

impl<H, B> Context<H, B> {
    /// This context has the given header, no blocks and no hooks.
    pub open spec fn is_fresh(&self, header: Option<ContextHeader>) -> bool {
        &&& self.header == header
        &&& self.blocks@.len() == 0
        &&& self.before_all@.len() == 0
        &&& self.before_each@.len() == 0
        &&& self.after_all@.len() == 0
        &&& self.after_each@.len() == 0
    }

    /// A context with the given header, no blocks and no hooks.
    pub fn new(header: Option<ContextHeader>) -> (r: Context<H, B>)
        ensures
            r.is_fresh(header),
    {
        Context {
            header,
            blocks: Vec::new(),
            before_all: Vec::new(),
            before_each: Vec::new(),
            after_all: Vec::new(),
            after_each: Vec::new(),
        }
    }

    /// The number of examples under this context, at any depth.
    pub open spec fn examples(&self) -> nat {
        blocks_examples(self.blocks@)
    }

    pub fn num_blocks(&self) -> (r: usize)
        ensures
            r == self.blocks@.len(),
    {
        self.blocks.len()
    }

    pub fn num_examples(&self) -> (r: usize)
        requires
            self.examples() <= usize::MAX,
        ensures
            r == self.examples(),
        decreases self,
    {
        let mut total: usize = 0;
        let mut i: usize = 0;
        while i < self.blocks.len()
            invariant
                0 <= i <= self.blocks@.len(),
                self.examples() <= usize::MAX,
                total == blocks_examples(self.blocks@.take(i as int)),
            decreases self.blocks@.len() - i,
        {
            proof {
                lemma_blocks_examples_prefix(self.blocks@, i as int);
            }
            let n = self.blocks[i].num_examples();
            total = total + n;
            i += 1;
        }
        assert(self.blocks@.take(i as int) =~= self.blocks@);
        total
    }

    pub fn is_empty(&self) -> (r: bool)
        ensures
            r == (self.blocks@.len() == 0),
    {
        self.blocks.is_empty()
    }

    /// This context is `old` with one more block, `b`, after the others; its
    /// header and hooks are those of `old`.
    pub open spec fn appended(&self, old: Context<H, B>, b: Block<H, B>) -> bool {
        &&& self.header == old.header
        &&& self.blocks@ == old.blocks@.push(b)
        &&& self.before_all@ == old.before_all@
        &&& self.before_each@ == old.before_each@
        &&& self.after_all@ == old.after_all@
        &&& self.after_each@ == old.after_each@
    }

    /// Opens a nested context labelled `Context`, which `body` fills.
    pub fn context<F: FnOnce(&mut Context<H, B>)>(&mut self, name: &'static str, body: F)
        requires
            forall|m: &mut Context<H, B>| #[trigger] body.requires((m,)),
        ensures
            exists|m: &mut Context<H, B>|
                #[trigger] body.ensures((m,), ()) && mut_ref_current(m).is_fresh(
                    Some((ContextHeader { label: ContextLabel::Context, name })),
                ) && final(self).appended(*old(self), Block::Context(mut_ref_future(m))),
    {
        self.context_internal(Some(ContextHeader::new(ContextLabel::Context, name)), body)
    }

    /// Opens a nested context labelled `Specify`, which `body` fills.
    pub fn specify<F: FnOnce(&mut Context<H, B>)>(&mut self, name: &'static str, body: F)
        requires
            forall|m: &mut Context<H, B>| #[trigger] body.requires((m,)),
        ensures
            exists|m: &mut Context<H, B>|
                #[trigger] body.ensures((m,), ()) && mut_ref_current(m).is_fresh(
                    Some((ContextHeader { label: ContextLabel::Specify, name })),
                ) && final(self).appended(*old(self), Block::Context(mut_ref_future(m))),
    {
        self.context_internal(Some(ContextHeader::new(ContextLabel::Specify, name)), body)
    }

    /// Opens a nested context labelled `When`, which `body` fills.
    pub fn when<F: FnOnce(&mut Context<H, B>)>(&mut self, name: &'static str, body: F)
        requires
            forall|m: &mut Context<H, B>| #[trigger] body.requires((m,)),
        ensures
            exists|m: &mut Context<H, B>|
                #[trigger] body.ensures((m,), ()) && mut_ref_current(m).is_fresh(
                    Some((ContextHeader { label: ContextLabel::When, name })),
                ) && final(self).appended(*old(self), Block::Context(mut_ref_future(m))),
    {
        self.context_internal(Some(ContextHeader::new(ContextLabel::When, name)), body)
    }

    /// Opens a nested anonymous context, which `body` fills: it scopes hooks
    /// and is not shown to observers.
    pub fn scope<F: FnOnce(&mut Context<H, B>)>(&mut self, body: F)
        requires
            forall|m: &mut Context<H, B>| #[trigger] body.requires((m,)),
        ensures
            exists|m: &mut Context<H, B>|
                #[trigger] body.ensures((m,), ()) && mut_ref_current(m).is_fresh(None)
                    && final(self).appended(*old(self), Block::Context(mut_ref_future(m))),
    {
        self.context_internal(None, body)
    }

    /// Adds an example labelled `Example` with the given body.
    pub fn example(&mut self, name: &'static str, body: B)
        ensures
            final(self).appended(
                *old(self),
                Block::Example(
                    (Example {
                        header: ExampleHeader { label: ExampleLabel::Example, name },
                        function: body,
                    }),
                ),
            ),
    {
        let header = ExampleHeader::new(ExampleLabel::Example, name);
        self.blocks.push(Block::Example(Example { header, function: body }));
    }

    /// Adds an example labelled `It` with the given body.
    pub fn it(&mut self, name: &'static str, body: B)
        ensures
            final(self).appended(
                *old(self),
                Block::Example(
                    (Example {
                        header: ExampleHeader { label: ExampleLabel::It, name },
                        function: body,
                    }),
                ),
            ),
    {
        let header = ExampleHeader::new(ExampleLabel::It, name);
        self.blocks.push(Block::Example(Example { header, function: body }));
    }

    /// Adds an example labelled `Then` with the given body.
    pub fn then(&mut self, name: &'static str, body: B)
        ensures
            final(self).appended(
                *old(self),
                Block::Example(
                    (Example {
                        header: ExampleHeader { label: ExampleLabel::Then, name },
                        function: body,
                    }),
                ),
            ),
    {
        let header = ExampleHeader::new(ExampleLabel::Then, name);
        self.blocks.push(Block::Example(Example { header, function: body }));
    }

    /// Adds a hook run once on the context's environment, before its blocks.
    pub fn before_all(&mut self, hook: H)
        ensures
            final(self).before_all@ == old(self).before_all@.push(hook),
            final(self).before_each@ == old(self).before_each@,
            final(self).after_all@ == old(self).after_all@,
            final(self).after_each@ == old(self).after_each@,
            final(self).header == old(self).header,
            final(self).blocks@ == old(self).blocks@,
    {
        self.before_all.push(hook);
    }

    /// Adds a `before_all` hook.
    pub fn before(&mut self, hook: H)
        ensures
            final(self).before_all@ == old(self).before_all@.push(hook),
            final(self).before_each@ == old(self).before_each@,
            final(self).after_all@ == old(self).after_all@,
            final(self).after_each@ == old(self).after_each@,
            final(self).header == old(self).header,
            final(self).blocks@ == old(self).blocks@,
    {
        self.before_all(hook);
    }

    /// Adds a hook run on each block's own copy of the environment, before the block.
    pub fn before_each(&mut self, hook: H)
        ensures
            final(self).before_each@ == old(self).before_each@.push(hook),
            final(self).before_all@ == old(self).before_all@,
            final(self).after_all@ == old(self).after_all@,
            final(self).after_each@ == old(self).after_each@,
            final(self).header == old(self).header,
            final(self).blocks@ == old(self).blocks@,
    {
        self.before_each.push(hook);
    }

    /// Adds a hook run once on the context's environment, after its blocks.
    pub fn after_all(&mut self, hook: H)
        ensures
            final(self).after_all@ == old(self).after_all@.push(hook),
            final(self).before_all@ == old(self).before_all@,
            final(self).before_each@ == old(self).before_each@,
            final(self).after_each@ == old(self).after_each@,
            final(self).header == old(self).header,
            final(self).blocks@ == old(self).blocks@,
    {
        self.after_all.push(hook);
    }

    /// Adds an `after_all` hook.
    pub fn after(&mut self, hook: H)
        ensures
            final(self).after_all@ == old(self).after_all@.push(hook),
            final(self).before_all@ == old(self).before_all@,
            final(self).before_each@ == old(self).before_each@,
            final(self).after_each@ == old(self).after_each@,
            final(self).header == old(self).header,
            final(self).blocks@ == old(self).blocks@,
    {
        self.after_all(hook);
    }

    /// Adds a hook run on each block's own copy of the environment, after the block.
    pub fn after_each(&mut self, hook: H)
        ensures
            final(self).after_each@ == old(self).after_each@.push(hook),
            final(self).before_all@ == old(self).before_all@,
            final(self).before_each@ == old(self).before_each@,
            final(self).after_all@ == old(self).after_all@,
            final(self).header == old(self).header,
            final(self).blocks@ == old(self).blocks@,
    {
        self.after_each.push(hook);
    }

    fn context_internal<F: FnOnce(&mut Context<H, B>)>(
        &mut self,
        header: Option<ContextHeader>,
        body: F,
    )
        requires
            forall|m: &mut Context<H, B>| #[trigger] body.requires((m,)),
        ensures
            exists|m: &mut Context<H, B>|
                #[trigger] body.ensures((m,), ()) && mut_ref_current(m).is_fresh(header)
                    && final(self).appended(*old(self), Block::Context(mut_ref_future(m))),
    {
        let mut child = Context::new(header);
        body(&mut child);
        self.blocks.push(Block::Context(child));
    }
}

impl<H, B> Default for Context<H, B> {
    /// An anonymous context with no blocks and no hooks.
    fn default() -> (r: Context<H, B>)
        ensures
            r.is_fresh(None),
    {
        Context::new(None)
    }
}

impl<T, H, B> Suite<T, H, B> {
    pub fn new(header: SuiteHeader, environment: T, context: Context<H, B>) -> (r: Suite<
        T,
        H,
        B,
    >)
        ensures
            r.header == header,
            r.environment == environment,
            r.context == context,
    {
        Suite { header, environment, context }
    }

    pub fn num_blocks(&self) -> (r: usize)
        ensures
            r == self.context.blocks@.len(),
    {
        self.context.num_blocks()
    }

    pub fn num_examples(&self) -> (r: usize)
        requires
            self.context.examples() <= usize::MAX,
        ensures
            r == self.context.examples(),
    {
        self.context.num_examples()
    }

    pub fn is_empty(&self) -> (r: bool)
        ensures
            r == (self.context.blocks@.len() == 0),
    {
        self.context.is_empty()
    }
}

fn suite_internal<T, H, B, F: FnOnce(&mut Context<H, B>)>(
    header: SuiteHeader,
    environment: T,
    body: F,
) -> (r: Suite<T, H, B>)
    requires
        forall|m: &mut Context<H, B>| #[trigger] body.requires((m,)),
    ensures
        r.header == header,
        r.environment == environment,
        exists|m: &mut Context<H, B>|
            #[trigger] body.ensures((m,), ()) && mut_ref_current(m).is_fresh(None)
                && mut_ref_future(m) == r.context,
{
    let mut context = Context::new(None);
    body(&mut context);
    Suite::new(header, environment, context)
}

/// A suite labelled `Suite`, with the initial environment and the root
/// context that `body` fills.
pub fn suite<T, H, B, F: FnOnce(&mut Context<H, B>)>(
    name: &'static str,
    environment: T,
    body: F,
) -> (r: Suite<T, H, B>)
    requires
        forall|m: &mut Context<H, B>| #[trigger] body.requires((m,)),
    ensures
        r.header == (SuiteHeader { label: SuiteLabel::Suite, name }),
        r.environment == environment,
        exists|m: &mut Context<H, B>|
            #[trigger] body.ensures((m,), ()) && mut_ref_current(m).is_fresh(None)
                && mut_ref_future(m) == r.context,
{
    suite_internal(SuiteHeader::new(SuiteLabel::Suite, name), environment, body)
}

/// A suite labelled `Describe`, with the initial environment and the root
/// context that `body` fills.
pub fn describe<T, H, B, F: FnOnce(&mut Context<H, B>)>(
    name: &'static str,
    environment: T,
    body: F,
) -> (r: Suite<T, H, B>)
    requires
        forall|m: &mut Context<H, B>| #[trigger] body.requires((m,)),
    ensures
        r.header == (SuiteHeader { label: SuiteLabel::Describe, name }),
        r.environment == environment,
        exists|m: &mut Context<H, B>|
            #[trigger] body.ensures((m,), ()) && mut_ref_current(m).is_fresh(None)
                && mut_ref_future(m) == r.context,
{
    suite_internal(SuiteHeader::new(SuiteLabel::Describe, name), environment, body)
}

/// A suite labelled `Given`, with the initial environment and the root
/// context that `body` fills.
pub fn given<T, H, B, F: FnOnce(&mut Context<H, B>)>(
    name: &'static str,
    environment: T,
    body: F,
) -> (r: Suite<T, H, B>)
    requires
        forall|m: &mut Context<H, B>| #[trigger] body.requires((m,)),
    ensures
        r.header == (SuiteHeader { label: SuiteLabel::Given, name }),
        r.environment == environment,
        exists|m: &mut Context<H, B>|
            #[trigger] body.ensures((m,), ()) && mut_ref_current(m).is_fresh(None)
                && mut_ref_future(m) == r.context,
{
    suite_internal(SuiteHeader::new(SuiteLabel::Given, name), environment, body)
}

} // verus!
