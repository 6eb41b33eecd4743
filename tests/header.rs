use rspec::header::{
    ContextHeader, ContextLabel, ExampleHeader, ExampleLabel, SuiteHeader, SuiteLabel,
};

#[test]
fn context_label_fmt() {
    fn subject(label: ContextLabel) -> String {
        label.to_string()
    }
    assert_eq!(subject(ContextLabel::Context), "Context".to_owned());
    assert_eq!(subject(ContextLabel::Specify), "Specify".to_owned());
    assert_eq!(subject(ContextLabel::When), "When".to_owned());
}

#[test]
fn context_header_fmt() {
    fn subject(label: ContextLabel) -> String {
        ContextHeader::new(label, "Test").to_string()
    }
    assert_eq!(subject(ContextLabel::Context), "Context \"Test\"".to_owned());
    assert_eq!(subject(ContextLabel::Specify), "Specify \"Test\"".to_owned());
    assert_eq!(subject(ContextLabel::When), "When \"Test\"".to_owned());
}

#[test]
fn example_label_fmt() {
    fn subject(label: ExampleLabel) -> String {
        label.to_string()
    }
    assert_eq!(subject(ExampleLabel::Example), "Example".to_owned());
    assert_eq!(subject(ExampleLabel::It), "It".to_owned());
    assert_eq!(subject(ExampleLabel::Then), "Then".to_owned());
}

#[test]
fn example_header_fmt() {
    fn subject(label: ExampleLabel) -> String {
        ExampleHeader::new(label, "Test").to_string()
    }
    assert_eq!(subject(ExampleLabel::Example), "Example \"Test\"".to_owned());
    assert_eq!(subject(ExampleLabel::It), "It \"Test\"".to_owned());
    assert_eq!(subject(ExampleLabel::Then), "Then \"Test\"".to_owned());
}

#[test]
fn suite_label_fmt() {
    fn subject(label: SuiteLabel) -> String {
        label.to_string()
    }
    assert_eq!(subject(SuiteLabel::Suite), "Suite".to_owned());
    assert_eq!(subject(SuiteLabel::Describe), "Describe".to_owned());
    assert_eq!(subject(SuiteLabel::Given), "Given".to_owned());
}

#[test]
fn suite_header_fmt() {
    fn subject(label: SuiteLabel) -> String {
        SuiteHeader::new(label, "Test").to_string()
    }
    assert_eq!(subject(SuiteLabel::Suite), "Suite \"Test\"".to_owned());
    assert_eq!(subject(SuiteLabel::Describe), "Describe \"Test\"".to_owned());
    assert_eq!(subject(SuiteLabel::Given), "Given \"Test\"".to_owned());
}

#[test]
fn header_name_is_escaped_when_quoted() {
    let header = ExampleHeader::new(ExampleLabel::It, "say \"hi\"");
    assert_eq!(header.to_string(), "It \"say \\\"hi\\\"\"".to_owned());
}
