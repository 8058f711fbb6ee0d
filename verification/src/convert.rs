//! The conversion protocol: host values to engine values and back.
//!
//! Encoding never fails. Decoding follows the engine's coercions as far as
//! the boundary applies them: a number reads as its decimal text, a numeric
//! text reads as its number, a boolean reads as 0 or 1 and as `true` or
//! `false`, a number reads as a boolean by whether it is nonzero. Every other
//! combination is a type mismatch that names both kinds.

use vstd::prelude::*;
use vstd::string::StringExecFns;
use crate::value::{Tag, Value, ValueView};
use crate::error::{Error, ErrorView};
use crate::decimal::{render_int, render_i32, parse_i32, parse_i32_spec, lemma_parse_render};

verus! {

/// The host types that the boundary converts.
#[derive(Clone, Copy, Debug, PartialEq, Eq, Structural)]
pub enum HostType {
    Unit,
    Bool,
    Int,
    Text,
    Any,
}

/// A value of one of the host types.
#[derive(Clone, Debug, PartialEq, Eq)]
pub enum HostValue {
    Unit,
    Bool(bool),
    Int(i32),
    Text(String),
    Any(Value),
}

/// The mathematical content of a [`HostValue`].
pub ghost enum HostView {
    Unit,
    Bool(bool),
    Int(int),
    Text(Seq<char>),
    Any(ValueView),
}

impl View for HostValue {
    type V = HostView;

    open spec fn view(&self) -> HostView {
        match self {
            HostValue::Unit => HostView::Unit,
            HostValue::Bool(b) => HostView::Bool(*b),
            HostValue::Int(n) => HostView::Int(*n as int),
            HostValue::Text(s) => HostView::Text(s@),
            HostValue::Any(v) => HostView::Any(v@),
        }
    }
}

impl HostView {
    /// The host type of this value.
    pub open spec fn host_type(self) -> HostType {
        match self {
            HostView::Unit => HostType::Unit,
            HostView::Bool(_) => HostType::Bool,
            HostView::Int(_) => HostType::Int,
            HostView::Text(_) => HostType::Text,
            HostView::Any(_) => HostType::Any,
        }
    }
}

/// The engine kind that a host type is encoded as. `Any` stands for every
/// kind and is never reported as expected.
pub open spec fn expected_tag(t: HostType) -> Tag {
    match t {
        HostType::Unit => Tag::Undefined,
        HostType::Bool => Tag::Bool,
        HostType::Int => Tag::Int,
        HostType::Text => Tag::String,
        HostType::Any => Tag::Undefined,
    }
}

/// The engine value that a host value is encoded as.
pub open spec fn encode_spec(h: HostView) -> ValueView {
    match h {
        HostView::Unit => ValueView::Undefined,
        HostView::Bool(b) => ValueView::Bool(b),
        HostView::Int(n) => ValueView::Int(n),
        HostView::Text(s) => ValueView::String(s),
        HostView::Any(v) => v,
    }
}

/// The failure of decoding `v` as `t`.
pub open spec fn mismatch(t: HostType, v: ValueView) -> ErrorView {
    ErrorView::TypeMismatch { expected: expected_tag(t), actual: v.tag() }
}

/// What decoding `v` as `t` gives.
pub open spec fn decode_spec(t: HostType, v: ValueView) -> Result<HostView, ErrorView> {
    match t {
        HostType::Any => Ok(HostView::Any(v)),
        HostType::Unit => match v {
            ValueView::Undefined => Ok(HostView::Unit),
            ValueView::Null => Ok(HostView::Unit),
            _ => Err(mismatch(t, v)),
        },
        HostType::Bool => match v {
            ValueView::Bool(b) => Ok(HostView::Bool(b)),
            ValueView::Int(n) => Ok(HostView::Bool(n != 0)),
            _ => Err(mismatch(t, v)),
        },
        HostType::Int => match v {
            ValueView::Int(n) => Ok(HostView::Int(n)),
            ValueView::Bool(b) => Ok(HostView::Int(if b { 1 } else { 0 })),
            ValueView::String(s) => match parse_i32_spec(s) {
                Some(n) => Ok(HostView::Int(n as int)),
                None => Err(mismatch(t, v)),
            },
            _ => Err(mismatch(t, v)),
        },
        HostType::Text => match v {
            ValueView::String(s) => Ok(HostView::Text(s)),
            ValueView::Int(n) => Ok(HostView::Text(render_int(n))),
            ValueView::Bool(b) => Ok(HostView::Text(if b { "true"@ } else { "false"@ })),
            _ => Err(mismatch(t, v)),
        },
    }
}

/// Whether a decoding result stands for the given outcome.
pub open spec fn decoded_as(r: Result<HostValue, Error>, m: Result<HostView, ErrorView>) -> bool {
    match (r, m) {
        (Ok(h), Ok(hv)) => h@ == hv,
        (Err(e), Err(ev)) => e@ == ev,
        _ => false,
    }
}

impl HostType {
    /// The engine kind that this host type is encoded as.
    pub fn expected(&self) -> (t: Tag)
        ensures
            t == expected_tag(*self),
    {
        match self {
            HostType::Unit => Tag::Undefined,
            HostType::Bool => Tag::Bool,
            HostType::Int => Tag::Int,
            HostType::Text => Tag::String,
            HostType::Any => Tag::Undefined,
        }
    }
}

impl HostValue {
    /// The host type of this value.
    pub fn host_type(&self) -> (t: HostType)
        ensures
            t == self@.host_type(),
    {
        match self {
            HostValue::Unit => HostType::Unit,
            HostValue::Bool(_) => HostType::Bool,
            HostValue::Int(_) => HostType::Int,
            HostValue::Text(_) => HostType::Text,
            HostValue::Any(_) => HostType::Any,
        }
    }
}

/// Encodes a host value as an engine value.
pub fn encode(h: HostValue) -> (v: Value)
    ensures
        v@ == encode_spec(h@),
{
    match h {
        HostValue::Unit => Value::Undefined,
        HostValue::Bool(b) => Value::Bool(b),
        HostValue::Int(n) => Value::Int(n),
        HostValue::Text(s) => Value::String(s),
        HostValue::Any(v) => v,
    }
}

/// Decodes an engine value as the host type `t`.
pub fn decode(t: HostType, v: Value) -> (r: Result<HostValue, Error>)
    ensures
        decoded_as(r, decode_spec(t, v@)),
{
    let actual = v.tag();
    let fail = Error::TypeMismatch { expected: t.expected(), actual };
    match t {
        HostType::Any => Ok(HostValue::Any(v)),
        HostType::Unit => match v {
            Value::Undefined => Ok(HostValue::Unit),
            Value::Null => Ok(HostValue::Unit),
            _ => Err(fail),
        },
        HostType::Bool => match v {
            Value::Bool(b) => Ok(HostValue::Bool(b)),
            Value::Int(n) => Ok(HostValue::Bool(n != 0)),
            _ => Err(fail),
        },
        HostType::Int => match v {
            Value::Int(n) => Ok(HostValue::Int(n)),
            Value::Bool(b) => Ok(HostValue::Int(if b { 1 } else { 0 })),
            Value::String(s) => match parse_i32(s.as_str()) {
                Some(n) => Ok(HostValue::Int(n)),
                None => Err(fail),
            },
            _ => Err(fail),
        },
        HostType::Text => match v {
            Value::String(s) => Ok(HostValue::Text(s)),
            Value::Int(n) => Ok(HostValue::Text(render_i32(n))),
            Value::Bool(b) => Ok(
                HostValue::Text(
                    if b {
                        String::from_str("true")
                    } else {
                        String::from_str("false")
                    },
                ),
            ),
            _ => Err(fail),
        },
    }
}

/// A value that decodes as `t` is of the host type `t`.
pub proof fn lemma_decode_type(t: HostType, v: ValueView)
    ensures
        decode_spec(t, v) matches Ok(h) ==> h.host_type() == t,
{
}

/// A host type that crosses the boundary: it can be encoded as an engine
/// value and decoded from one.
pub trait HostData: Sized {
    /// The host type under which values of this type cross.
    spec fn host_type() -> HostType;

    /// The content of this value.
    spec fn model(&self) -> HostView;

    /// Every value of this type is of its host type.
    proof fn lemma_model(&self)
        ensures
            self.model().host_type() == Self::host_type(),
    ;

    /// The host type under which values of this type cross.
    fn kind() -> (t: HostType)
        ensures
            t == Self::host_type(),
    ;

    /// This value as a host value.
    fn into_host(self) -> (h: HostValue)
        ensures
            h@ == self.model(),
    ;

    /// The value of this type that a host value holds: there is one exactly
    /// where the host value is of this type.
    fn from_host(h: HostValue) -> (r: Option<Self>)
        ensures
            h@.host_type() == Self::host_type() ==> (r matches Some(x) && x.model() == h@),
            h@.host_type() != Self::host_type() ==> r is None,
    ;
}

impl HostData for () {
    open spec fn host_type() -> HostType {
        HostType::Unit
    }

    open spec fn model(&self) -> HostView {
        HostView::Unit
    }

    proof fn lemma_model(&self) {
    }

    fn kind() -> (t: HostType) {
        HostType::Unit
    }

    fn into_host(self) -> (h: HostValue) {
        HostValue::Unit
    }

    fn from_host(h: HostValue) -> (r: Option<Self>) {
        match h {
            HostValue::Unit => Some(()),
            _ => None,
        }
    }
}

impl HostData for bool {
    open spec fn host_type() -> HostType {
        HostType::Bool
    }

    open spec fn model(&self) -> HostView {
        HostView::Bool(*self)
    }

    proof fn lemma_model(&self) {
    }

    fn kind() -> (t: HostType) {
        HostType::Bool
    }

    fn into_host(self) -> (h: HostValue) {
        HostValue::Bool(self)
    }

    fn from_host(h: HostValue) -> (r: Option<Self>) {
        match h {
            HostValue::Bool(b) => Some(b),
            _ => None,
        }
    }
}

impl HostData for i32 {
    open spec fn host_type() -> HostType {
        HostType::Int
    }

    open spec fn model(&self) -> HostView {
        HostView::Int(*self as int)
    }

    proof fn lemma_model(&self) {
    }

    fn kind() -> (t: HostType) {
        HostType::Int
    }

    fn into_host(self) -> (h: HostValue) {
        HostValue::Int(self)
    }

    fn from_host(h: HostValue) -> (r: Option<Self>) {
        match h {
            HostValue::Int(n) => Some(n),
            _ => None,
        }
    }
}

impl HostData for String {
    open spec fn host_type() -> HostType {
        HostType::Text
    }

    open spec fn model(&self) -> HostView {
        HostView::Text(self@)
    }

    proof fn lemma_model(&self) {
    }

    fn kind() -> (t: HostType) {
        HostType::Text
    }

    fn into_host(self) -> (h: HostValue) {
        HostValue::Text(self)
    }

    fn from_host(h: HostValue) -> (r: Option<Self>) {
        match h {
            HostValue::Text(s) => Some(s),
            _ => None,
        }
    }
}

impl HostData for Value {
    open spec fn host_type() -> HostType {
        HostType::Any
    }

    open spec fn model(&self) -> HostView {
        HostView::Any(self@)
    }

    proof fn lemma_model(&self) {
    }

    fn kind() -> (t: HostType) {
        HostType::Any
    }

    fn into_host(self) -> (h: HostValue) {
        HostValue::Any(self)
    }

    fn from_host(h: HostValue) -> (r: Option<Self>) {
        match h {
            HostValue::Any(v) => Some(v),
            _ => None,
        }
    }
}

/// Whether a typed decoding result stands for the given outcome.
pub open spec fn typed_as<T: HostData>(r: Result<T, Error>, m: Result<HostView, ErrorView>) -> bool {
    match (r, m) {
        (Ok(x), Ok(h)) => x.model() == h,
        (Err(e), Err(ev)) => e@ == ev,
        _ => false,
    }
}

/// Encodes a value of a host type as an engine value.
pub fn into_js<T: HostData>(x: T) -> (v: Value)
    ensures
        v@ == encode_spec(x.model()),
{
    encode(x.into_host())
}

/// Decodes an engine value as the host type `T`.
pub fn from_js<T: HostData>(v: Value) -> (r: Result<T, Error>)
    ensures
        typed_as(r, decode_spec(T::host_type(), v@)),
{
    let t = T::kind();
    let actual = v.tag();
    proof {
        lemma_decode_type(t, v@);
    }
    match decode(t, v) {
        Ok(h) => match T::from_host(h) {
            Some(x) => Ok(x),
            None => Err(Error::TypeMismatch { expected: t.expected(), actual }),
        },
        Err(e) => Err(e),
    }
}

/// For every host type, decoding the encoding of a value as that type gives
/// the value back.
pub proof fn lemma_typed_round_trip<T: HostData>(x: T)
    ensures
        decode_spec(T::host_type(), encode_spec(x.model())) == Ok::<HostView, ErrorView>(x.model()),
{
    x.lemma_model();
    lemma_round_trip(x.model());
}

/// Decoding an encoded host value as its own type gives the value back.
pub proof fn lemma_round_trip(h: HostView)
    ensures
        decode_spec(h.host_type(), encode_spec(h)) == Ok::<HostView, ErrorView>(h),
{
}

/// A 32-bit integer that is read as text and then as an integer again is
/// unchanged.
pub proof fn lemma_int_through_text(n: i32)
    ensures
        decode_spec(HostType::Text, ValueView::Int(n as int)) == Ok::<HostView, ErrorView>(
            HostView::Text(render_int(n as int)),
        ),
        decode_spec(HostType::Int, ValueView::String(render_int(n as int))) == Ok::<
            HostView,
            ErrorView,
        >(HostView::Int(n as int)),
{
    lemma_parse_render(n as int);
}

} // verus!
