use std::collections::BTreeSet;
use std::sync::atomic::{AtomicUsize, Ordering};
use std::sync::{Arc, Mutex};

use rspec::block::{suite, Suite};
use rspec::header::{ContextHeader, ExampleHeader, SuiteHeader};
use rspec::report::{ContextReport, ExampleReport, ExampleResult, Report, SuiteReport};
use rspec::runner::{Configuration, ConfigurationBuilder, Runner, RunnerObserver};

type Env = BTreeSet<i32>;
type Hook = Box<dyn Fn(Env) -> Env + Send + Sync>;
type Body = Box<dyn Fn(&Env) -> ExampleResult + Send + Sync>;

struct Quiet;

impl RunnerObserver for Quiet {}

#[derive(Default)]
struct Recorder {
    events: Mutex<Vec<String>>,
}

impl RunnerObserver for Recorder {
    fn enter_suite(&self, header: &SuiteHeader) {
        self.events.lock().unwrap().push(format!("enter {}", header.to_string()));
    }
    fn exit_suite(&self, header: &SuiteHeader, report: &SuiteReport) {
        self.events
            .lock()
            .unwrap()
            .push(format!("exit {} {}", header.to_string(), report.get_passed()));
    }
    fn enter_context(&self, header: &ContextHeader) {
        self.events.lock().unwrap().push(format!("enter {}", header.to_string()));
    }
    fn exit_context(&self, header: &ContextHeader, report: &ContextReport) {
        self.events
            .lock()
            .unwrap()
            .push(format!("exit {} {}", header.to_string(), report.get_passed()));
    }
    fn enter_example(&self, header: &ExampleHeader) {
        self.events.lock().unwrap().push(format!("enter {}", header.to_string()));
    }
    fn exit_example(&self, header: &ExampleHeader, report: &ExampleReport) {
        self.events
            .lock()
            .unwrap()
            .push(format!("exit {} {}", header.to_string(), report.get_passed()));
    }
}

fn body(f: impl Fn(&Env) -> bool + Send + Sync + 'static) -> Body {
    Box::new(move |env: &Env| ExampleResult::from(f(env)))
}

fn hook(f: impl Fn(&mut Env) + Send + Sync + 'static) -> Hook {
    Box::new(move |mut env: Env| {
        f(&mut env);
        env
    })
}

fn config(parallel: bool) -> Configuration {
    ConfigurationBuilder::default()
        .parallel(parallel)
        .exit_on_failure(false)
        .build()
        .unwrap()
}

fn run(parallel: bool, suite: &Suite<Env, Hook, Body>) -> SuiteReport {
    let mut runner: Runner<Quiet> = Runner::new(config(parallel), vec![]);
    runner.run(suite)
}

fn counter() -> Arc<AtomicUsize> {
    Arc::new(AtomicUsize::new(0))
}

#[test]
fn default_with_builder() {
    let config = ConfigurationBuilder::default().build().unwrap();
    assert_eq!(config.exit_on_failure, true);
}

#[test]
fn default() {
    let expected = ConfigurationBuilder::default().build().unwrap();
    let config = Configuration::default();
    assert_eq!(expected.exit_on_failure, config.exit_on_failure);
    assert_eq!(expected.parallel, config.parallel);
}

#[test]
fn builder() {
    let config = ConfigurationBuilder::default().build().unwrap();
    assert_eq!(config.exit_on_failure, true);

    let config = ConfigurationBuilder::default()
        .exit_on_failure(false)
        .build()
        .unwrap();

    assert_eq!(config.exit_on_failure, false);
}

#[test]
fn it_can_be_instanciated() {
    let _ = Runner::<Quiet>::new(Configuration::default(), vec![]);
}

#[test]
fn empty_set_is_empty() {
    let suite: Suite<Env, Hook, Body> = suite("s", Env::new(), |ctx| {
        ctx.then("is empty", body(|set| set.is_empty()));
    });
    for parallel in [true, false] {
        let report = run(parallel, &suite);
        assert_eq!(report.get_passed(), 1);
        assert_eq!(report.get_failed(), 0);
    }
}

#[test]
fn nested_before_all_carries_forward() {
    let suite: Suite<Env, Hook, Body> = suite("s", Env::new(), |ctx| {
        ctx.then("is empty", body(|set| set.is_empty()));
        ctx.context("adding", |ctx| {
            ctx.before_all(hook(|set| {
                set.insert(42);
            }));
            ctx.then("len==1", body(|set| set.len() == 1));
            ctx.context("adding again", |ctx| {
                ctx.before_all(hook(|set| {
                    set.insert(42);
                }));
                ctx.then("len unchanged", body(|set| set.len() == 1));
            });
        });
    });
    for parallel in [true, false] {
        let report = run(parallel, &suite);
        assert_eq!(report.get_passed(), 3);
        assert_eq!(report.get_failed(), 0);
        assert!(!report.is_failure());
    }
}

#[test]
fn before_each_changes_only_its_own_copy() {
    let suite: Suite<Env, Hook, Body> = suite("s", Env::new(), |ctx| {
        ctx.before_each(hook(|set| {
            let next = set.len() as i32;
            set.insert(next);
        }));
        ctx.it("first", body(|set| set.len() == 1));
        ctx.it("second", body(|set| set.len() == 1));
        ctx.context("third", |ctx| {
            ctx.it("nested", body(|set| set.len() == 1));
        });
    });
    for parallel in [true, false] {
        let report = run(parallel, &suite);
        assert_eq!(report.get_passed(), 3);
        assert_eq!(report.get_failed(), 0);
    }
}

#[test]
fn failing_example_does_not_abort_sibling() {
    let boom_runs = counter();
    let ok_runs = counter();
    let (boom, ok) = (boom_runs.clone(), ok_runs.clone());
    let suite: Suite<Env, Hook, Body> = suite("s", Env::new(), move |ctx| {
        let boom = boom.clone();
        ctx.then(
            "boom",
            Box::new(move |_: &Env| {
                boom.fetch_add(1, Ordering::SeqCst);
                ExampleResult::from_panic(Some("boom".to_owned()))
            }) as Body,
        );
        let ok = ok.clone();
        ctx.then(
            "ok",
            Box::new(move |_: &Env| {
                ok.fetch_add(1, Ordering::SeqCst);
                ExampleResult::from(true)
            }) as Body,
        );
    });
    let report = run(true, &suite);
    assert_eq!(report.get_passed(), 1);
    assert_eq!(report.get_failed(), 1);
    assert!(report.is_failure());
    assert_eq!(boom_runs.load(Ordering::SeqCst), 1);
    assert_eq!(ok_runs.load(Ordering::SeqCst), 1);
}

#[test]
fn hooks_run_once_per_context_and_once_per_block() {
    let all = counter();
    let each = counter();
    let (a1, a2, e1, e2) = (all.clone(), all.clone(), each.clone(), each.clone());
    let suite: Suite<Env, Hook, Body> = suite("s", Env::new(), move |ctx| {
        let (a1, a2, e1, e2) = (a1.clone(), a2.clone(), e1.clone(), e2.clone());
        ctx.before_all(hook(move |_| {
            a1.fetch_add(1, Ordering::SeqCst);
        }));
        ctx.after_all(hook(move |_| {
            a2.fetch_add(1, Ordering::SeqCst);
        }));
        ctx.before_each(hook(move |_| {
            e1.fetch_add(1, Ordering::SeqCst);
        }));
        ctx.after_each(hook(move |_| {
            e2.fetch_add(1, Ordering::SeqCst);
        }));
        ctx.it("one", body(|_| true));
        ctx.it("two", body(|_| true));
        ctx.context("nested", |ctx| {
            ctx.it("three", body(|_| true));
            ctx.it("four", body(|_| true));
        });
    });
    for parallel in [true, false] {
        all.store(0, Ordering::SeqCst);
        each.store(0, Ordering::SeqCst);
        let report = run(parallel, &suite);
        assert_eq!(report.get_passed(), 4);
        assert_eq!(all.load(Ordering::SeqCst), 2);
        assert_eq!(each.load(Ordering::SeqCst), 6);
    }
}

#[test]
fn parallel_and_serial_runs_agree() {
    let suite: Suite<Env, Hook, Body> = suite("s", Env::new(), |ctx| {
        ctx.before_each(hook(|set| {
            set.insert(1);
        }));
        ctx.it("has one", body(|set| set.contains(&1)));
        ctx.it("has two", body(|set| set.contains(&2)));
        ctx.context("ignored", |ctx| {
            ctx.it("skipped", Box::new(|_: &Env| ExampleResult::Ignored));
            ctx.it("still one", body(|set| set.len() == 1));
        });
    });
    let parallel = run(true, &suite);
    let serial = run(false, &suite);
    assert_eq!(parallel.get_passed(), 2);
    assert_eq!(parallel.get_failed(), 1);
    assert_eq!(parallel.get_ignored(), 1);
    assert_eq!(parallel.get_passed(), serial.get_passed());
    assert_eq!(parallel.get_failed(), serial.get_failed());
    assert_eq!(parallel.get_ignored(), serial.get_ignored());
}

#[test]
fn siblings_do_not_see_each_other() {
    let suite: Suite<Env, Hook, Body> = suite("s", Env::new(), |ctx| {
        ctx.context("first", |ctx| {
            ctx.before_all(hook(|set| {
                set.insert(7);
            }));
            ctx.it("sees its own change", body(|set| set.contains(&7)));
        });
        ctx.context("second", |ctx| {
            ctx.it("sees no change of the first", body(|set| set.is_empty()));
        });
        ctx.it("also sees no change", body(|set| set.is_empty()));
    });
    for parallel in [true, false] {
        let report = run(parallel, &suite);
        assert_eq!(report.get_passed(), 3);
        assert_eq!(report.get_failed(), 0);
    }
}

#[test]
fn reports_keep_the_order_of_declaration() {
    let suite: Suite<Env, Hook, Body> = suite("s", Env::new(), |ctx| {
        for _ in 0..20 {
            ctx.it("passes", body(|_| true));
            ctx.it("fails", body(|_| false));
        }
    });
    let report = run(true, &suite);
    let blocks = report.get_context().get_blocks();
    assert_eq!(blocks.len(), 40);
    for (i, block) in blocks.iter().enumerate() {
        assert_eq!(block.is_success(), i % 2 == 0);
    }
}

#[test]
fn failed_run_is_remembered() {
    let failing: Suite<Env, Hook, Body> = suite("s", Env::new(), |ctx| {
        ctx.it("fails", body(|_| false));
    });
    let passing: Suite<Env, Hook, Body> = suite("s", Env::new(), |ctx| {
        ctx.it("passes", body(|_| true));
    });
    let mut runner: Runner<Quiet> = Runner::new(Configuration::default(), vec![]);
    runner.run(&passing);
    assert!(!runner.should_exit());
    runner.run(&failing);
    assert!(runner.should_exit());
    runner.run(&passing);
    assert!(runner.should_exit());

    let mut lenient: Runner<Quiet> = Runner::new(config(true), vec![]);
    lenient.run(&failing);
    assert!(lenient.failed);
    assert!(!lenient.should_exit());
}

#[test]
fn observers_are_told_in_order() {
    let suite: Suite<Env, Hook, Body> = suite("s", Env::new(), |ctx| {
        ctx.scope(|ctx| {
            ctx.when("w", |ctx| {
                ctx.it("i", body(|_| true));
            });
        });
    });
    let mut runner = Runner::new(config(false), vec![Recorder::default()]);
    runner.run(&suite);
    let events = runner.observers[0].events.lock().unwrap().clone();
    assert_eq!(
        events,
        vec![
            "enter Suite \"s\"",
            "enter When \"w\"",
            "enter It \"i\"",
            "exit It \"i\" 1",
            "exit When \"w\" 1",
            "exit Suite \"s\" 1",
        ]
    );
}
