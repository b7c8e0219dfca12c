//! Tags: the key and value pairs that accompany a measurement.

use vstd::prelude::*;
use vstd::string::*;

verus! {

/// The keys a tag can have.
#[derive(Clone, Copy, Debug, PartialEq, Eq, Structural)]
pub enum AttributeKey {
    /// `process.pid`
    ProcessPid,
    /// `process.executable.name`
    ProcessExecutableName,
    /// `process.executable.path`
    ProcessExecutablePath,
    /// `process.command`
    ProcessCommand,
    /// `direction`
    Direction,
}

impl AttributeKey {
    /// The key as it is reported.
    pub open spec fn name_text(self) -> Seq<char> {
        match self {
            AttributeKey::ProcessPid => "process.pid"@,
            AttributeKey::ProcessExecutableName => "process.executable.name"@,
            AttributeKey::ProcessExecutablePath => "process.executable.path"@,
            AttributeKey::ProcessCommand => "process.command"@,
            AttributeKey::Direction => "direction"@,
        }
    }

    /// The key as it is reported.
    pub fn name(&self) -> (name: &'static str)
        ensures
            name@ == self.name_text(),
    {
        match self {
            AttributeKey::ProcessPid => "process.pid",
            AttributeKey::ProcessExecutableName => "process.executable.name",
            AttributeKey::ProcessExecutablePath => "process.executable.path",
            AttributeKey::ProcessCommand => "process.command",
            AttributeKey::Direction => "direction",
        }
    }
}

/// Which way disk bytes went.
#[derive(Clone, Copy, Debug, PartialEq, Eq, Structural)]
pub enum Direction {
    /// Bytes read from disk.
    Read,
    /// Bytes written to disk.
    Write,
}

impl Direction {
    /// The value of the `direction` tag.
    pub open spec fn label_text(self) -> Seq<char> {
        match self {
            Direction::Read => "read"@,
            Direction::Write => "write"@,
        }
    }

    /// The value of the `direction` tag.
    pub fn label(&self) -> (label: &'static str)
        ensures
            label@ == self.label_text(),
    {
        match self {
            Direction::Read => "read",
            Direction::Write => "write",
        }
    }
}

/// The value of a tag.
#[derive(Clone, Debug, PartialEq, Eq)]
pub enum AttributeValue {
    /// A whole number.
    Int(i64),
    /// A text.
    Text(String),
}

/// What an [`AttributeValue`] stands for.
pub enum AttributeValueView {
    /// A whole number.
    Int(i64),
    /// A text, character by character.
    Text(Seq<char>),
}

impl View for AttributeValue {
    type V = AttributeValueView;

    open spec fn view(&self) -> AttributeValueView {
        match self {
            AttributeValue::Int(number) => AttributeValueView::Int(*number),
            AttributeValue::Text(text) => AttributeValueView::Text(text@),
        }
    }
}

/// One tag.
#[derive(Clone, Debug, PartialEq, Eq)]
pub struct Attribute {
    /// The key.
    pub key: AttributeKey,
    /// The value.
    pub value: AttributeValue,
}

/// What an [`Attribute`] stands for.
pub struct AttributeView {
    /// The key.
    pub key: AttributeKey,
    /// The value.
    pub value: AttributeValueView,
}

impl View for Attribute {
    type V = AttributeView;

    open spec fn view(&self) -> AttributeView {
        AttributeView { key: self.key, value: self.value@ }
    }
}

/// The tags that a list of attributes stands for, in order.
pub open spec fn attribute_views(attributes: Seq<Attribute>) -> Seq<AttributeView> {
    Seq::new(attributes.len(), |i: int| attributes[i]@)
}

impl Attribute {
    /// A tag with a whole number as its value.
    pub fn number(key: AttributeKey, number: i64) -> (attribute: Attribute)
        ensures
            attribute@ == (AttributeView { key, value: AttributeValueView::Int(number) }),
    {
        Attribute { key, value: AttributeValue::Int(number) }
    }

    /// A tag with a text as its value.
    pub fn text(key: AttributeKey, text: &str) -> (attribute: Attribute)
        ensures
            attribute@ == (AttributeView { key, value: AttributeValueView::Text(text@) }),
    {
        Attribute { key, value: AttributeValue::Text(String::from_str(text)) }
    }
}

} // verus!
