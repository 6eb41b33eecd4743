use rspec::block::{describe, given, suite, Context, Suite};
use rspec::header::SuiteLabel;
use rspec::report::ExampleResult;

type Hook = Box<dyn Fn(()) + Send + Sync>;
type Body = Box<dyn Fn(&()) -> ExampleResult + Send + Sync>;
type Ctx = Context<Hook, Body>;
type Builder = fn(&'static str, (), fn(&mut Ctx)) -> Suite<(), Hook, Body>;

fn unit_body() -> Body {
    Box::new(|_: &()| ExampleResult::from(()))
}

fn builders() -> Vec<Builder> {
    vec![suite, describe, given]
}

fn suite_alias(build: Builder) {
    build("suite (or alias)", (), |_| {});
}

fn context_alias(build: Builder, open: fn(&mut Ctx)) {
    let suite = build("suite (or alias)", (), open);
    assert_eq!(suite.num_blocks(), 1);
}

fn with_context(ctx: &mut Ctx) {
    ctx.context("context (or alias)", |_| {});
}

fn with_specify(ctx: &mut Ctx) {
    ctx.specify("context (or alias)", |_| {});
}

fn with_when(ctx: &mut Ctx) {
    ctx.when("context (or alias)", |_| {});
}

fn example_in(ctx: &mut Ctx) {
    ctx.example("example (or alias)", unit_body());
}

fn it_in(ctx: &mut Ctx) {
    ctx.it("example (or alias)", unit_body());
}

fn then_in(ctx: &mut Ctx) {
    ctx.then("example (or alias)", unit_body());
}

fn contexts_with(ctx: &mut Ctx, add: fn(&mut Ctx)) {
    ctx.context("context (or alias)", add);
}

fn specifies_with(ctx: &mut Ctx, add: fn(&mut Ctx)) {
    ctx.specify("context (or alias)", add);
}

fn whens_with(ctx: &mut Ctx, add: fn(&mut Ctx)) {
    ctx.when("context (or alias)", add);
}

fn check_examples(add: fn(&mut Ctx)) {
    let openers: Vec<fn(&mut Ctx, fn(&mut Ctx))> = vec![contexts_with, specifies_with, whens_with];
    for open in openers {
        let suites: Vec<Suite<(), Hook, Body>> = vec![
            suite("suite (or alias)", (), |ctx| open(ctx, add)),
            describe("suite (or alias)", (), |ctx| open(ctx, add)),
            given("suite (or alias)", (), |ctx| open(ctx, add)),
        ];
        for suite in suites {
            assert_eq!(suite.num_blocks(), 1);
            assert_eq!(suite.num_examples(), 1);
        }
    }
}

#[test]
fn context_it_has_root_functions() {
    for build in builders() {
        suite_alias(build);
    }
}

#[test]
fn context_it_has_contextual_function_context() {
    for build in builders() {
        context_alias(build, with_context);
    }
}

#[test]
fn context_it_has_contexual_function_specify() {
    for build in builders() {
        context_alias(build, with_specify);
    }
}

#[test]
fn context_it_has_contexual_function_when() {
    for build in builders() {
        context_alias(build, with_when);
    }
}

#[test]
fn context_it_has_check_function_example() {
    check_examples(example_in);
}

#[test]
fn context_it_has_check_function_it() {
    check_examples(it_in);
}

#[test]
fn context_it_has_check_function_then() {
    check_examples(then_in);
}

#[test]
fn context_test_it_has_root_functions() {
    for build in builders() {
        suite_alias(build);
    }
}

#[test]
fn context_test_it_has_contextual_function_context() {
    for build in builders() {
        context_alias(build, with_context);
    }
}

#[test]
fn context_test_it_has_contexual_function_specify() {
    for build in builders() {
        context_alias(build, with_specify);
    }
}

#[test]
fn context_test_it_has_contexual_function_when() {
    for build in builders() {
        context_alias(build, with_when);
    }
}

#[test]
fn context_test_it_has_check_function_example() {
    check_examples(example_in);
}

#[test]
fn context_test_it_has_check_function_it() {
    check_examples(it_in);
}

#[test]
fn context_test_it_has_check_function_then() {
    check_examples(then_in);
}

#[test]
fn empty_suite() {
    let suite: Suite<(), Hook, Body> = suite("name", (), |_| {});
    assert_eq!(suite.header.label, SuiteLabel::Suite);
    assert_eq!(suite.header.name, "name");
    assert_eq!(suite.environment, ());
    assert_eq!(suite.is_empty(), true);
    assert_eq!(suite.num_examples(), 0);
}

#[test]
fn empty_describe() {
    let describe: Suite<(), Hook, Body> = describe("name", (), |_| {});
    assert_eq!(describe.header.label, SuiteLabel::Describe);
    assert_eq!(describe.header.name, "name");
    assert_eq!(describe.environment, ());
    assert_eq!(describe.is_empty(), true);
    assert_eq!(describe.num_examples(), 0);
}

#[test]
fn empty_given() {
    let given: Suite<(), Hook, Body> = given("name", (), |_| {});
    assert_eq!(given.header.label, SuiteLabel::Given);
    assert_eq!(given.header.name, "name");
    assert_eq!(given.environment, ());
    assert_eq!(given.is_empty(), true);
    assert_eq!(given.num_examples(), 0);
}

#[test]
fn non_empty_suite() {
    let suite: Suite<(), Hook, Body> = suite("suite", (), |ctx| {
        ctx.context("context", |_| {});
    });
    assert_eq!(suite.header.label, SuiteLabel::Suite);
    assert_eq!(suite.header.name, "suite");
    assert_eq!(suite.environment, ());
    assert_eq!(suite.is_empty(), false);
    assert_eq!(suite.num_examples(), 0);
}

#[test]
fn nested_examples_are_counted() {
    let suite: Suite<(), Hook, Body> = suite("suite", (), |ctx| {
        ctx.it("first", unit_body());
        ctx.context("outer", |ctx| {
            ctx.then("second", unit_body());
            ctx.scope(|ctx| {
                ctx.example("third", unit_body());
                ctx.example("fourth", unit_body());
            });
        });
    });
    assert_eq!(suite.num_blocks(), 2);
    assert_eq!(suite.num_examples(), 4);
}

#[test]
fn hooks_are_kept_in_order_of_registration() {
    let mut ctx: Ctx = Context::default();
    ctx.before_all(Box::new(|env| env));
    ctx.before(Box::new(|env| env));
    ctx.before_each(Box::new(|env| env));
    ctx.after_all(Box::new(|env| env));
    ctx.after(Box::new(|env| env));
    ctx.after_each(Box::new(|env| env));
    assert_eq!(ctx.before_all.len(), 2);
    assert_eq!(ctx.before_each.len(), 1);
    assert_eq!(ctx.after_all.len(), 2);
    assert_eq!(ctx.after_each.len(), 1);
    assert!(ctx.is_empty());
}
