//! Property access on engine objects, and the exception bridge.
//!
//! The host performs the raw engine operations; this module decides which
//! operation an access turns into and what the engine's reply means. Each
//! access is a pair: a method of [`Object`] that builds the [`Request`], and
//! a `finish_` function that reads what the engine handed back.

use vstd::prelude::*;
use crate::value::{Tag, Value, ValueView};
use crate::error::{Error, ErrorView};
use crate::convert::{HostData, HostType, HostValue, decode, decode_spec, from_js};
use crate::decimal::{render_int, render_i32, parse_i32, parse_i32_spec, lemma_parse_render};

verus! {

/// A raw engine operation that the host is to perform.
#[derive(Clone, Debug, PartialEq, Eq)]
pub enum Request {
    /// Create an empty object.
    NewObject,
    /// Read a property by direct index, without interning a key.
    GetIndexed { object: u64, index: u32 },
    /// Intern `key` as an atom and read the property under it.
    GetProperty { object: u64, key: Value },
    /// Intern `key` as an atom and ask whether the object has it.
    HasProperty { object: u64, key: Value },
    /// Intern `key` as an atom and store `value` under it. The engine takes
    /// over the reference that `value` holds when it reports success.
    SetProperty { object: u64, key: Value, value: Value },
    /// Intern `key` as an atom and delete the property under it, with the
    /// engine's property flags `flags`.
    DeleteProperty { object: u64, key: Value, flags: i32 },
    /// Ask whether the object can be called.
    IsFunction { object: u64 },
    /// Ask whether the object is an array.
    IsArray { object: u64 },
}

/// The mathematical content of a [`Request`].
pub ghost enum RequestView {
    NewObject,
    GetIndexed { object: u64, index: u32 },
    GetProperty { object: u64, key: ValueView },
    HasProperty { object: u64, key: ValueView },
    SetProperty { object: u64, key: ValueView, value: ValueView },
    DeleteProperty { object: u64, key: ValueView, flags: i32 },
    IsFunction { object: u64 },
    IsArray { object: u64 },
}

impl View for Request {
    type V = RequestView;

    open spec fn view(&self) -> RequestView {
        match self {
            Request::NewObject => RequestView::NewObject,
            Request::GetIndexed { object, index } => RequestView::GetIndexed {
                object: *object,
                index: *index,
            },
            Request::GetProperty { object, key } => RequestView::GetProperty {
                object: *object,
                key: key@,
            },
            Request::HasProperty { object, key } => RequestView::HasProperty {
                object: *object,
                key: key@,
            },
            Request::SetProperty { object, key, value } => RequestView::SetProperty {
                object: *object,
                key: key@,
                value: value@,
            },
            Request::DeleteProperty { object, key, flags } => RequestView::DeleteProperty {
                object: *object,
                key: key@,
                flags: *flags,
            },
            Request::IsFunction { object } => RequestView::IsFunction { object: *object },
            Request::IsArray { object } => RequestView::IsArray { object: *object },
        }
    }
}

/// What a raw operation that yields a value handed back.
#[derive(Clone, Debug, PartialEq, Eq)]
pub enum Reply {
    /// A value, with one new counted reference where it is of a heap kind.
    Value(Value),
    /// The engine's exception sentinel: the operation raised.
    Exception,
}

/// Why an engine operation gave no result.
#[derive(Clone, Debug, PartialEq, Eq)]
pub enum Failure {
    /// The engine raised. Its pending exception is to be taken now, before
    /// any other operation, and wrapped as an error.
    Raised,
    /// The engine answered, and the answer was refused for the given reason.
    Refused(Error),
}

/// What becomes of the host's reference to a value that was handed to an
/// operation which may take it over.
#[derive(Clone, Copy, Debug, PartialEq, Eq, Structural)]
pub enum Disposal {
    /// The engine owns the reference now: the host must not release it.
    Forget,
    /// The engine did not take the reference: the host releases it as usual.
    Release,
}

/// The index under which the direct path reaches the property that `key`
/// names: a non-negative integer, or the decimal text of one.
pub open spec fn key_index(key: ValueView) -> Option<u32> {
    match key {
        ValueView::Int(n) => if 0 <= n <= i32::MAX {
            Some(n as u32)
        } else {
            None
        },
        ValueView::String(s) => match parse_i32_spec(s) {
            Some(n) => if n >= 0 && render_int(n as int) == s {
                Some(n as u32)
            } else {
                None
            },
            None => None,
        },
        _ => None,
    }
}

/// The operation that reads the property `key` of `object`.
pub open spec fn get_request(object: u64, key: ValueView) -> RequestView {
    match key_index(key) {
        Some(index) => RequestView::GetIndexed { object, index },
        None => RequestView::GetProperty { object, key },
    }
}

/// The engine's property flag that asks it to raise where an operation cannot
/// be done.
pub open spec fn throw_flag() -> i32 {
    16384
}

/// The constant `JS_PROP_THROW` of `rquickjs_sys`, which the bindings give
/// as 16384 for every target.
#[verifier::external_body]
fn prop_throw() -> (flag: i32)
    ensures
        flag == throw_flag(),
{
    rquickjs_sys::JS_PROP_THROW as i32
}

/// What a status code means for an operation that reports success as 0 or 1:
/// a negative code says that the engine raised.
pub open spec fn status_raised(status: i32) -> bool {
    status < 0
}

/// The index under which the direct path reaches the property that `key`
/// names, if there is one.
pub fn index_of_key(key: &Value) -> (r: Option<u32>)
    ensures
        r == key_index(key@),
{
    match key {
        Value::Int(n) => if *n >= 0 {
            Some(*n as u32)
        } else {
            None
        },
        Value::String(s) => match parse_i32(s.as_str()) {
            Some(n) => {
                if n >= 0 {
                    let text = render_i32(n);
                    if text == *s {
                        Some(n as u32)
                    } else {
                        None
                    }
                } else {
                    None
                }
            },
            None => None,
        },
        _ => None,
    }
}

/// A value that is known to be an engine object.
#[derive(Clone, Debug, PartialEq, Eq)]
pub struct Object {
    handle: u64,
}

impl Object {
    /// The engine cell of this object.
    pub closed spec fn cell(&self) -> u64 {
        self.handle
    }

    /// The engine cell of this object.
    pub fn handle(&self) -> (h: u64)
        ensures
            h == self.cell(),
    {
        self.handle
    }

    /// The operation that creates an object.
    pub fn create() -> (request: Request)
        ensures
            request@ == RequestView::NewObject,
    {
        Request::NewObject
    }

    /// Reads the reply to [`Object::create`]: an object on success, the
    /// raised exception or the refusal of another kind of value otherwise.
    pub fn new(reply: Reply) -> (r: Result<Object, Failure>)
        ensures
            match reply {
                Reply::Exception => r == Err::<Object, Failure>(Failure::Raised),
                Reply::Value(v) => Object::narrowed(v@, r),
            },
    {
        match reply {
            Reply::Exception => Err(Failure::Raised),
            Reply::Value(v) => Object::from_value(v),
        }
    }

    /// The result of narrowing `v` to an object.
    pub open spec fn narrowed(v: ValueView, r: Result<Object, Failure>) -> bool {
        match v {
            ValueView::Object(h) => r matches Ok(o) && o.cell() == h,
            _ => r matches Err(Failure::Refused(e)) && e@ == (ErrorView::TypeMismatch {
                expected: Tag::Object,
                actual: v.tag(),
            }),
        }
    }

    /// Narrows a value to an object: succeeds exactly on values of the
    /// object kind.
    pub fn from_value(v: Value) -> (r: Result<Object, Failure>)
        ensures
            Object::narrowed(v@, r),
    {
        match v {
            Value::Object(h) => Ok(Object { handle: h }),
            _ => Err(Failure::Refused(Error::TypeMismatch { expected: Tag::Object, actual: v.tag() })),
        }
    }

    /// This object as a plain value.
    pub fn as_value(&self) -> (v: Value)
        ensures
            v@ == ValueView::Object(self.cell()),
    {
        Value::Object(self.handle)
    }

    /// The operation that reads the property `key`. A key that is a
    /// non-negative integer, or the decimal text of one, goes the direct
    /// indexed way; every other key is interned.
    pub fn get(&self, key: Value) -> (request: Request)
        ensures
            request@ == get_request(self.cell(), key@),
    {
        match index_of_key(&key) {
            Some(index) => Request::GetIndexed { object: self.handle, index },
            None => Request::GetProperty { object: self.handle, key },
        }
    }

    /// The operation that asks whether the object has the property `key`.
    pub fn contains_key(&self, key: Value) -> (request: Request)
        ensures
            request@ == (RequestView::HasProperty { object: self.cell(), key: key@ }),
    {
        Request::HasProperty { object: self.handle, key }
    }

    /// The operation that stores `value` under `key`. The value moves into
    /// the request: the host has no second use of it.
    pub fn set(&self, key: Value, value: Value) -> (request: Request)
        ensures
            request@ == (RequestView::SetProperty {
                object: self.cell(),
                key: key@,
                value: value@,
            }),
    {
        Request::SetProperty { object: self.handle, key, value }
    }

    /// The operation that deletes the property `key`, asking the engine to
    /// raise where it cannot.
    pub fn remove(&self, key: Value) -> (request: Request)
        ensures
            request@ == (RequestView::DeleteProperty {
                object: self.cell(),
                key: key@,
                flags: throw_flag(),
            }),
    {
        Request::DeleteProperty { object: self.handle, key, flags: prop_throw() }
    }

    /// The operation that asks whether this object can be called.
    pub fn is_function(&self) -> (request: Request)
        ensures
            request@ == (RequestView::IsFunction { object: self.cell() }),
    {
        Request::IsFunction { object: self.handle }
    }

    /// The operation that asks whether this object is an array.
    pub fn is_array(&self) -> (request: Request)
        ensures
            request@ == (RequestView::IsArray { object: self.cell() }),
    {
        Request::IsArray { object: self.handle }
    }
}

/// What reading `reply` as the host type `t` gives.
pub open spec fn get_outcome(reply: Reply, t: HostType, r: Result<HostValue, Failure>) -> bool {
    match reply {
        Reply::Exception => r == Err::<HostValue, Failure>(Failure::Raised),
        Reply::Value(v) => match decode_spec(t, v@) {
            Ok(h) => r matches Ok(x) && x@ == h,
            Err(e) => r matches Err(Failure::Refused(x)) && x@ == e,
        },
    }
}

/// Reads the reply to a property read as the host type `t`.
pub fn finish_get(reply: Reply, t: HostType) -> (r: Result<HostValue, Failure>)
    ensures
        get_outcome(reply, t, r),
{
    match reply {
        Reply::Exception => Err(Failure::Raised),
        Reply::Value(v) => match decode(t, v) {
            Ok(h) => Ok(h),
            Err(e) => Err(Failure::Refused(e)),
        },
    }
}

/// What reading `reply` as the host type `T` gives.
pub open spec fn typed_get_outcome<T: HostData>(reply: Reply, r: Result<T, Failure>) -> bool {
    match reply {
        Reply::Exception => r matches Err(Failure::Raised),
        Reply::Value(v) => match decode_spec(T::host_type(), v@) {
            Ok(h) => r matches Ok(x) && x.model() == h,
            Err(e) => r matches Err(Failure::Refused(x)) && x@ == e,
        },
    }
}

/// Reads the reply to a property read as a value of the host type `T`.
pub fn finish_get_as<T: HostData>(reply: Reply) -> (r: Result<T, Failure>)
    ensures
        typed_get_outcome(reply, r),
{
    match reply {
        Reply::Exception => Err(Failure::Raised),
        Reply::Value(v) => match from_js::<T>(v) {
            Ok(x) => Ok(x),
            Err(e) => Err(Failure::Refused(e)),
        },
    }
}

/// Reads the status of a membership question: raised below zero, present
/// exactly at 1.
pub fn finish_contains_key(status: i32) -> (r: Result<bool, Failure>)
    ensures
        status_raised(status) ==> r == Err::<bool, Failure>(Failure::Raised),
        !status_raised(status) ==> r == Ok::<bool, Failure>(status == 1),
{
    if status < 0 {
        Err(Failure::Raised)
    } else {
        Ok(status == 1)
    }
}

/// Reads the status of a store. The host's reference to the stored value is
/// forgotten exactly when the engine reports success, and released as usual
/// when it raised.
pub fn finish_set(status: i32) -> (r: (Result<(), Failure>, Disposal))
    ensures
        status_raised(status) ==> r == (Err::<(), Failure>(Failure::Raised), Disposal::Release),
        !status_raised(status) ==> r == (Ok::<(), Failure>(()), Disposal::Forget),
{
    if status < 0 {
        (Err(Failure::Raised), Disposal::Release)
    } else {
        (Ok(()), Disposal::Forget)
    }
}

/// Reads the status of a deletion.
pub fn finish_remove(status: i32) -> (r: Result<(), Failure>)
    ensures
        status_raised(status) ==> r == Err::<(), Failure>(Failure::Raised),
        !status_raised(status) ==> r == Ok::<(), Failure>(()),
{
    if status < 0 {
        Err(Failure::Raised)
    } else {
        Ok(())
    }
}

/// Reads the answer to a capability question: yes unless it is zero.
pub fn finish_probe(status: i32) -> (yes: bool)
    ensures
        yes == (status != 0),
{
    status != 0
}

/// A non-negative integer key and its decimal text as a key turn into the
/// same read operation, so both reads see the same reply.
pub proof fn lemma_numeric_key_equivalence(object: u64, n: i32)
    requires
        n >= 0,
    ensures
        get_request(object, ValueView::Int(n as int)) == get_request(
            object,
            ValueView::String(render_int(n as int)),
        ),
        get_request(object, ValueView::Int(n as int)) == (RequestView::GetIndexed {
            object,
            index: n as u32,
        }),
{
    lemma_parse_render(n as int);
}

} // verus!
