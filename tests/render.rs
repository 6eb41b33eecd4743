use rspec::header::{ContextHeader, ContextLabel, ExampleHeader, ExampleLabel, SuiteHeader, SuiteLabel};
use rspec::render::{duration_parts, failure_lines, padding, report_flag};
use rspec::report::{BlockReport, ContextReport, ExampleReport, ExampleResult, SuiteReport};

fn example(name: &'static str, result: ExampleResult) -> BlockReport {
    BlockReport::Example(
        ExampleHeader::new(ExampleLabel::It, name),
        ExampleReport::new(result, time::Duration::zero()),
    )
}

fn context(blocks: Vec<BlockReport>) -> ContextReport {
    ContextReport::new(blocks, time::Duration::zero())
}

#[test]
fn it_padds() {
    let expected = vec![("", 0), ("  ", 1), ("    ", 2), ("      ", 3)];
    for (expected_res, given_depth) in expected {
        let res = padding(given_depth);
        assert_eq!(String::from(expected_res), res)
    }
}

#[test]
fn flag_tells_success_from_failure() {
    let passed = context(vec![example("a", ExampleResult::Success)]);
    let failed = context(vec![example("a", ExampleResult::Failure(None))]);
    assert_eq!(report_flag(&passed), "ok");
    assert_eq!(report_flag(&failed), "FAILED");
}

#[test]
fn duration_is_split_into_units() {
    let parts = duration_parts(3_723_004);
    assert_eq!(
        (parts.hours, parts.minutes, parts.seconds, parts.milliseconds),
        (1, 2, 3, 4)
    );
    let parts = duration_parts(999);
    assert_eq!(
        (parts.hours, parts.minutes, parts.seconds, parts.milliseconds),
        (0, 0, 0, 999)
    );
}

#[test]
fn failures_are_listed_with_their_depth() {
    let when = ContextHeader::new(ContextLabel::When, "w");
    let report = SuiteReport::new(
        SuiteHeader::new(SuiteLabel::Describe, "d"),
        context(vec![
            example("fine", ExampleResult::Success),
            BlockReport::Context(
                Some(when),
                context(vec![
                    example("bad", ExampleResult::Failure(Some("why".to_owned()))),
                    example("quiet", ExampleResult::Failure(None)),
                ]),
            ),
            BlockReport::Context(None, context(vec![example("x", ExampleResult::Failure(None))])),
        ]),
    );
    let lines: Vec<(usize, String)> = failure_lines(&report)
        .into_iter()
        .map(|l| (l.depth, l.text))
        .collect();
    assert_eq!(
        lines,
        vec![
            (0, "Describe \"d\"".to_owned()),
            (1, "When \"w\"".to_owned()),
            (3, "It \"bad\"".to_owned()),
            (4, "why".to_owned()),
            (3, "It \"quiet\"".to_owned()),
            (3, "It \"x\"".to_owned()),
        ]
    );
}

#[test]
fn no_failure_lists_nothing() {
    let report = SuiteReport::new(
        SuiteHeader::new(SuiteLabel::Suite, "s"),
        context(vec![example("fine", ExampleResult::Success)]),
    );
    assert!(failure_lines(&report).is_empty());
}
