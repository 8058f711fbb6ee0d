//! The values that cross the boundary.

use vstd::prelude::*;

verus! {

/// The kinds of value that the scripting engine distinguishes.
#[derive(Clone, Copy, Debug, PartialEq, Eq, Structural)]
pub enum Tag {
    Undefined,
    Null,
    Bool,
    Int,
    Float,
    String,
    Object,
    Function,
    Array,
    Exception,
}

/// One engine value as the host sees it.
///
/// Primitive kinds carry their data inline. Heap kinds carry the identity of
/// the engine cell that this value holds one counted reference to. A float
/// is carried as its IEEE-754 bit pattern and is never interpreted here.
#[derive(Clone, Debug, PartialEq, Eq)]
pub enum Value {
    Undefined,
    Null,
    Bool(bool),
    Int(i32),
    Float(u64),
    String(String),
    Object(u64),
    Function(u64),
    Array(u64),
    Exception(u64),
}

/// The mathematical content of a [`Value`].
pub ghost enum ValueView {
    Undefined,
    Null,
    Bool(bool),
    Int(int),
    Float(u64),
    String(Seq<char>),
    Object(u64),
    Function(u64),
    Array(u64),
    Exception(u64),
}

impl ValueView {
    /// The kind of this value.
    pub open spec fn tag(self) -> Tag {
        match self {
            ValueView::Undefined => Tag::Undefined,
            ValueView::Null => Tag::Null,
            ValueView::Bool(_) => Tag::Bool,
            ValueView::Int(_) => Tag::Int,
            ValueView::Float(_) => Tag::Float,
            ValueView::String(_) => Tag::String,
            ValueView::Object(_) => Tag::Object,
            ValueView::Function(_) => Tag::Function,
            ValueView::Array(_) => Tag::Array,
            ValueView::Exception(_) => Tag::Exception,
        }
    }

    /// The engine cell that this value refers to, if it is of a heap kind
    /// whose cell the host tracks.
    pub open spec fn cell(self) -> Option<u64> {
        match self {
            ValueView::Object(h) => Some(h),
            ValueView::Function(h) => Some(h),
            ValueView::Array(h) => Some(h),
            ValueView::Exception(h) => Some(h),
            _ => None,
        }
    }
}

impl View for Value {
    type V = ValueView;

    open spec fn view(&self) -> ValueView {
        match self {
            Value::Undefined => ValueView::Undefined,
            Value::Null => ValueView::Null,
            Value::Bool(b) => ValueView::Bool(*b),
            Value::Int(n) => ValueView::Int(*n as int),
            Value::Float(bits) => ValueView::Float(*bits),
            Value::String(s) => ValueView::String(s@),
            Value::Object(h) => ValueView::Object(*h),
            Value::Function(h) => ValueView::Function(*h),
            Value::Array(h) => ValueView::Array(*h),
            Value::Exception(h) => ValueView::Exception(*h),
        }
    }
}

impl Value {
    /// The kind of this value.
    pub fn tag(&self) -> (t: Tag)
        ensures
            t == self@.tag(),
    {
        match self {
            Value::Undefined => Tag::Undefined,
            Value::Null => Tag::Null,
            Value::Bool(_) => Tag::Bool,
            Value::Int(_) => Tag::Int,
            Value::Float(_) => Tag::Float,
            Value::String(_) => Tag::String,
            Value::Object(_) => Tag::Object,
            Value::Function(_) => Tag::Function,
            Value::Array(_) => Tag::Array,
            Value::Exception(_) => Tag::Exception,
        }
    }

    /// The engine cell that this value holds a counted reference to, if any.
    pub fn cell(&self) -> (c: Option<u64>)
        ensures
            c == self@.cell(),
    {
        match self {
            Value::Object(h) => Some(*h),
            Value::Function(h) => Some(*h),
            Value::Array(h) => Some(*h),
            Value::Exception(h) => Some(*h),
            _ => None,
        }
    }

    /// A second value with the same content. For a heap kind it names the
    /// same cell, and whoever keeps it counts it as a duplicate.
    pub fn duplicate(&self) -> (v: Value)
        ensures
            v@ == self@,
    {
        match self {
            Value::Undefined => Value::Undefined,
            Value::Null => Value::Null,
            Value::Bool(b) => Value::Bool(*b),
            Value::Int(n) => Value::Int(*n),
            Value::Float(bits) => Value::Float(*bits),
            Value::String(s) => Value::String(s.clone()),
            Value::Object(h) => Value::Object(*h),
            Value::Function(h) => Value::Function(*h),
            Value::Array(h) => Value::Array(*h),
            Value::Exception(h) => Value::Exception(*h),
        }
    }
}

/// The name under which a kind appears in messages.
pub open spec fn tag_name(t: Tag) -> Seq<char> {
    match t {
        Tag::Undefined => "undefined"@,
        Tag::Null => "null"@,
        Tag::Bool => "bool"@,
        Tag::Int => "int"@,
        Tag::Float => "float"@,
        Tag::String => "string"@,
        Tag::Object => "object"@,
        Tag::Function => "function"@,
        Tag::Array => "array"@,
        Tag::Exception => "exception"@,
    }
}

impl Tag {
    /// The name under which this kind appears in messages.
    pub fn name(&self) -> (s: &'static str)
        ensures
            s@ == tag_name(*self),
    {
        match self {
            Tag::Undefined => "undefined",
            Tag::Null => "null",
            Tag::Bool => "bool",
            Tag::Int => "int",
            Tag::Float => "float",
            Tag::String => "string",
            Tag::Object => "object",
            Tag::Function => "function",
            Tag::Array => "array",
            Tag::Exception => "exception",
        }
    }
}

} // verus!
