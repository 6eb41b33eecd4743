//! Headers store the label and name of a suite, a context or an example.

use vstd::prelude::*;
use vstd::string::StringExecFns;

verus! {

/// The text that `{:?}` gives for a string: the string quoted and escaped.
pub uninterp spec fn quoted(s: Seq<char>) -> Seq<char>;

/// Relies on `<str as Debug>::fmt`, which depends on the characters alone.
#[verifier::external_body]
pub(crate) fn debug_quoted(s: &str) -> (r: String)
    ensures
        r@ == quoted(s@),
{
    format!("{:?}", s)
}

/// `label` followed by a space and the quoted `name`.
pub open spec fn header_text(label: Seq<char>, name: Seq<char>) -> Seq<char> {
    label + " "@ + quoted(name)
}

fn join_header(label: &str, name: &str) -> (r: String)
    ensures
        r@ == header_text(label@, name@),
{
    let text = label.to_string();
    let text = text.concat(" ");
    let quoted_name = debug_quoted(name);
    let r = text.concat(quoted_name.as_str());
    proof {
        reveal_strlit(" ");
    }
    r
}

/// How a suite is labelled when printed.
#[derive(Clone, Copy, PartialEq, Eq, Debug, Structural)]
pub enum SuiteLabel {
    Suite,
    Describe,
    Given,
}

impl SuiteLabel {
    pub open spec fn text(self) -> Seq<char> {
        match self {
            SuiteLabel::Suite => "Suite"@,
            SuiteLabel::Describe => "Describe"@,
            SuiteLabel::Given => "Given"@,
        }
    }

    fn as_str(&self) -> (r: &'static str)
        ensures
            r@ == self.text(),
    {
        match self {
            SuiteLabel::Suite => "Suite",
            SuiteLabel::Describe => "Describe",
            SuiteLabel::Given => "Given",
        }
    }

    /// The label as printed.
    pub fn to_string(&self) -> (r: String)
        ensures
            r@ == self.text(),
    {
        self.as_str().to_string()
    }
}

/// Label and name of a suite.
#[derive(Clone, Copy, PartialEq, Eq, Debug)]
pub struct SuiteHeader {
    pub label: SuiteLabel,
    pub name: &'static str,
}

impl SuiteHeader {
    pub fn new(label: SuiteLabel, name: &'static str) -> (r: SuiteHeader)
        ensures
            r.label == label,
            r.name == name,
    {
        SuiteHeader { label, name }
    }

    /// The label followed by the quoted name, as in `Suite "name"`.
    pub fn to_string(&self) -> (r: String)
        ensures
            r@ == header_text(self.label.text(), self.name@),
    {
        join_header(self.label.as_str(), self.name)
    }
}

/// How a context is labelled when printed.
#[derive(Clone, Copy, PartialEq, Eq, Debug, Structural)]
pub enum ContextLabel {
    Context,
    Specify,
    When,
}

impl ContextLabel {
    pub open spec fn text(self) -> Seq<char> {
        match self {
            ContextLabel::Context => "Context"@,
            ContextLabel::Specify => "Specify"@,
            ContextLabel::When => "When"@,
        }
    }

    fn as_str(&self) -> (r: &'static str)
        ensures
            r@ == self.text(),
    {
        match self {
            ContextLabel::Context => "Context",
            ContextLabel::Specify => "Specify",
            ContextLabel::When => "When",
        }
    }

    /// The label as printed.
    pub fn to_string(&self) -> (r: String)
        ensures
            r@ == self.text(),
    {
        self.as_str().to_string()
    }
}

/// Label and name of a context.
#[derive(Clone, Copy, PartialEq, Eq, Debug)]
pub struct ContextHeader {
    pub label: ContextLabel,
    pub name: &'static str,
}

impl ContextHeader {
    pub fn new(label: ContextLabel, name: &'static str) -> (r: ContextHeader)
        ensures
            r.label == label,
            r.name == name,
    {
        ContextHeader { label, name }
    }

    /// The label followed by the quoted name, as in `Context "name"`.
    pub fn to_string(&self) -> (r: String)
        ensures
            r@ == header_text(self.label.text(), self.name@),
    {
        join_header(self.label.as_str(), self.name)
    }
}

/// How an example is labelled when printed.
#[derive(Clone, Copy, PartialEq, Eq, Debug, Structural)]
pub enum ExampleLabel {
    It,
    Example,
    Then,
}

impl ExampleLabel {
    pub open spec fn text(self) -> Seq<char> {
        match self {
            ExampleLabel::It => "It"@,
            ExampleLabel::Example => "Example"@,
            ExampleLabel::Then => "Then"@,
        }
    }

    fn as_str(&self) -> (r: &'static str)
        ensures
            r@ == self.text(),
    {
        match self {
            ExampleLabel::It => "It",
            ExampleLabel::Example => "Example",
            ExampleLabel::Then => "Then",
        }
    }

    /// The label as printed.
    pub fn to_string(&self) -> (r: String)
        ensures
            r@ == self.text(),
    {
        self.as_str().to_string()
    }
}

/// Label and name of an example.
#[derive(Clone, Copy, PartialEq, Eq, Debug)]
pub struct ExampleHeader {
    pub label: ExampleLabel,
    pub name: &'static str,
}

impl ExampleHeader {
    pub fn new(label: ExampleLabel, name: &'static str) -> (r: ExampleHeader)
        ensures
            r.label == label,
            r.name == name,
    {
        ExampleHeader { label, name }
    }

    /// The label followed by the quoted name, as in `It "name"`.
    pub fn to_string(&self) -> (r: String)
        ensures
            r@ == header_text(self.label.text(), self.name@),
    {
        join_header(self.label.as_str(), self.name)
    }
}

} // verus!
