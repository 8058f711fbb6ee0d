//! Structured host types: how their members and variants cross the
//! boundary.
//!
//! A struct with named fields is an object with one property per field,
//! under the field's visible name. A tuple struct is an array, member by
//! position. An enumeration without payload is the text of its variant's
//! tag. Members are read and written one at a time, so that an exception
//! that the engine raises for one member is taken before the next is
//! touched; a member that does not decode is reported under its name.

use vstd::prelude::*;
use vstd::string::StringExecFns;
use crate::value::{Tag, Value, ValueView};
use crate::error::{Error, ErrorView};
use crate::convert::{HostType, HostValue, HostView, decode, decode_spec, encode, encode_spec, expected_tag};
use crate::decimal::{render_int, render_usize};
use crate::object::{Failure, Object, Reply, Request, RequestView, get_request};
use crate::binding::{decode_args_spec, decode_prefix};

verus! {

/// The operation that reads the field `name` of a struct held in `object`.
pub fn field_read(object: &Object, name: &str) -> (request: Request)
    ensures
        request@ == get_request(object.cell(), ValueView::String(name@)),
{
    object.get(Value::String(String::from_str(name)))
}

/// The operation that writes `value` as the field `name` of a struct held in
/// `object`.
pub fn field_write(object: &Object, name: &str, value: HostValue) -> (request: Request)
    ensures
        request@ == (RequestView::SetProperty {
            object: object.cell(),
            key: ValueView::String(name@),
            value: encode_spec(value@),
        }),
{
    object.set(Value::String(String::from_str(name)), encode(value))
}

/// The operation that reads the member at `position` of a tuple held in the
/// array `array`.
pub fn element_read(array: u64, position: u32) -> (request: Request)
    ensures
        request@ == (RequestView::GetIndexed { object: array, index: position }),
{
    Request::GetIndexed { object: array, index: position }
}

/// The key of the member at `position` of a tuple: the position as an
/// integer where it fits one, as its decimal text beyond.
pub open spec fn element_key(position: u32) -> ValueView {
    if position <= i32::MAX {
        ValueView::Int(position as int)
    } else {
        ValueView::String(render_int(position as int))
    }
}

/// The operation that writes `value` as the member at `position` of a tuple
/// held in the array `array`.
pub fn element_write(array: u64, position: u32, value: HostValue) -> (request: Request)
    ensures
        request@ == (RequestView::SetProperty {
            object: array,
            key: element_key(position),
            value: encode_spec(value@),
        }),
{
    let key = if position <= 2147483647 {
        Value::Int(position as i32)
    } else {
        Value::String(render_usize(position as usize))
    };
    Request::SetProperty { object: array, key, value: encode(value) }
}

/// What reading `reply` as the member `name` of type `t` gives.
pub open spec fn member_outcome(
    name: Seq<char>,
    t: HostType,
    reply: Reply,
    r: Result<HostValue, Failure>,
) -> bool {
    match reply {
        Reply::Exception => r == Err::<HostValue, Failure>(Failure::Raised),
        Reply::Value(v) => match decode_spec(t, v@) {
            Ok(h) => r matches Ok(x) && x@ == h,
            Err(_) => r matches Err(Failure::Refused(x)) && x@ == (ErrorView::Member {
                name,
                expected: expected_tag(t),
                actual: v@.tag(),
            }),
        },
    }
}

/// Reads the reply to the read of the member `name` as the host type `t`. A
/// value that does not decode is refused under the member's name.
pub fn finish_member(name: &str, t: HostType, reply: Reply) -> (r: Result<HostValue, Failure>)
    ensures
        member_outcome(name@, t, reply, r),
{
    match reply {
        Reply::Exception => Err(Failure::Raised),
        Reply::Value(v) => {
            let actual = v.tag();
            match decode(t, v) {
                Ok(h) => Ok(h),
                Err(_) => Err(
                    Failure::Refused(
                        Error::Member { name: String::from_str(name), expected: t.expected(), actual },
                    ),
                ),
            }
        },
    }
}

/// The tags of an enumeration as sequences of characters.
pub open spec fn tag_views(tags: Seq<String>) -> Seq<Seq<char>> {
    tags.map_values(|s: String| s@)
}

/// The first position from `from` on at which `tags` holds `tag`.
pub open spec fn find_tag(tags: Seq<Seq<char>>, tag: Seq<char>, from: nat) -> Option<nat>
    decreases tags.len() - from,
{
    if from >= tags.len() {
        None
    } else if tags[from as int] == tag {
        Some(from)
    } else {
        find_tag(tags, tag, from + 1)
    }
}

/// What decoding `v` as a variant of the enumeration with the tags `tags`
/// gives: the position of the first variant whose tag is the text `v`.
pub open spec fn decode_variant_spec(tags: Seq<Seq<char>>, v: ValueView) -> Result<nat, ErrorView> {
    match v {
        ValueView::String(s) => match find_tag(tags, s, 0) {
            Some(i) => Ok(i),
            None => Err(ErrorView::UnknownVariant { tag: s }),
        },
        _ => Err(ErrorView::TypeMismatch { expected: Tag::String, actual: v.tag() }),
    }
}

/// Whether a result of decoding a variant stands for the given outcome.
pub open spec fn variant_decoded_as(r: Result<usize, Error>, m: Result<nat, ErrorView>) -> bool {
    match (r, m) {
        (Ok(i), Ok(n)) => i == n,
        (Err(e), Err(ev)) => e@ == ev,
        _ => false,
    }
}

/// Encodes the variant at position `which` as the text of its tag; `None`
/// where the enumeration has no such variant.
pub fn encode_variant(tags: &Vec<String>, which: usize) -> (v: Option<Value>)
    ensures
        which < tags@.len() ==> (v matches Some(x) && x@ == ValueView::String(
            tag_views(tags@)[which as int],
        )),
        which >= tags@.len() ==> v is None,
{
    if which < tags.len() {
        Some(Value::String(tags[which].clone()))
    } else {
        None
    }
}

/// Decodes a value as a variant of the enumeration with the tags `tags`.
pub fn decode_variant(tags: &Vec<String>, v: &Value) -> (r: Result<usize, Error>)
    ensures
        variant_decoded_as(r, decode_variant_spec(tag_views(tags@), v@)),
{
    match v {
        Value::String(s) => {
            let mut i: usize = 0;
            while i < tags.len()
                invariant
                    i <= tags.len(),
                    v@ == ValueView::String(s@),
                    find_tag(tag_views(tags@), s@, 0) == find_tag(tag_views(tags@), s@, i as nat),
                decreases tags.len() - i,
            {
                proof {
                    assert(tag_views(tags@)[i as int] == tags@[i as int]@);
                }
                if tags[i] == *s {
                    proof {
                        assert(find_tag(tag_views(tags@), s@, i as nat) == Some(i as nat));
                    }
                    return Ok(i);
                }
                i = i + 1;
            }
            Err(Error::UnknownVariant { tag: s.clone() })
        },
        _ => Err(Error::TypeMismatch { expected: Tag::String, actual: v.tag() }),
    }
}

/// The operation that asks whether the object that encodes a variant with a
/// payload carries the tag `tag`. Such a variant is an object with a single
/// property: its key is the variant's tag, its value the payload, encoded as
/// a tuple or a struct.
pub fn variant_probe(object: &Object, tag: &str) -> (request: Request)
    ensures
        request@ == (RequestView::HasProperty {
            object: object.cell(),
            key: ValueView::String(tag@),
        }),
{
    object.contains_key(Value::String(String::from_str(tag)))
}

/// The operation that reads the payload of the variant `tag`.
pub fn payload_read(object: &Object, tag: &str) -> (request: Request)
    ensures
        request@ == get_request(object.cell(), ValueView::String(tag@)),
{
    object.get(Value::String(String::from_str(tag)))
}

/// The operation that stores `payload` under the tag `tag` of the object
/// that encodes a variant.
pub fn payload_write(object: &Object, tag: &str, payload: Value) -> (request: Request)
    ensures
        request@ == (RequestView::SetProperty {
            object: object.cell(),
            key: ValueView::String(tag@),
            value: payload@,
        }),
{
    object.set(Value::String(String::from_str(tag)), payload)
}

/// The first position from `from` on at which `present` is true.
pub open spec fn first_true(present: Seq<bool>, from: nat) -> Option<nat>
    decreases present.len() - from,
{
    if from >= present.len() {
        None
    } else if present[from as int] {
        Some(from)
    } else {
        first_true(present, from + 1)
    }
}

/// The variant that an object encodes, given for each variant in order
/// whether the object carries its tag: the first that it carries.
pub fn first_present(present: &Vec<bool>) -> (which: Option<usize>)
    ensures
        match first_true(present@, 0) {
            Some(i) => which == Some(i as usize) && i < present@.len(),
            None => which is None,
        },
{
    let mut i: usize = 0;
    while i < present.len()
        invariant
            i <= present.len(),
            first_true(present@, 0) == first_true(present@, i as nat),
        decreases present.len() - i,
    {
        if present[i] {
            proof {
                assert(first_true(present@, i as nat) == Some(i as nat));
            }
            return Some(i);
        }
        i = i + 1;
    }
    None
}

/// Whether no two variants share a tag.
pub open spec fn distinct_tags(tags: Seq<Seq<char>>) -> bool {
    forall|i: int, j: int| 0 <= i < j < tags.len() ==> tags[i] != tags[j]
}

proof fn lemma_find_tag_from(tags: Seq<Seq<char>>, i: nat, from: nat)
    requires
        from <= i < tags.len(),
        forall|j: int| from <= j < i ==> tags[j] != tags[i as int],
    ensures
        find_tag(tags, tags[i as int], from) == Some(i),
    decreases i - from,
{
    if from < i {
        lemma_find_tag_from(tags, i, from + 1);
    }
}

/// In an enumeration whose tags are distinct, decoding the encoding of a
/// variant gives the variant back.
pub proof fn lemma_variant_round_trip(tags: Seq<Seq<char>>, which: nat)
    requires
        distinct_tags(tags),
        which < tags.len(),
    ensures
        decode_variant_spec(tags, ValueView::String(tags[which as int])) == Ok::<nat, ErrorView>(
            which,
        ),
{
    lemma_find_tag_from(tags, which, 0);
}

/// The host types of a sequence of host values.
pub open spec fn types_of(members: Seq<HostView>) -> Seq<HostType> {
    members.map_values(|h: HostView| h.host_type())
}

/// The encodings of a sequence of host values.
pub open spec fn encodings_of(members: Seq<HostView>) -> Seq<ValueView> {
    members.map_values(|h: HostView| encode_spec(h))
}

/// Decoding the encoded members of a struct or tuple, each as its own type
/// and in their order, gives the members back.
pub proof fn lemma_members_round_trip(members: Seq<HostView>)
    ensures
        decode_args_spec(types_of(members), encodings_of(members)) == Ok::<Seq<HostView>, ErrorView>(
            members,
        ),
{
    lemma_members_prefix(members, members.len());
    assert(members.take(members.len() as int) =~= members);
}

proof fn lemma_members_prefix(members: Seq<HostView>, k: nat)
    requires
        k <= members.len(),
    ensures
        decode_prefix(types_of(members), encodings_of(members), k) == Ok::<Seq<HostView>, ErrorView>(
            members.take(k as int),
        ),
    decreases k,
{
    if k == 0 {
        assert(members.take(0) =~= Seq::<HostView>::empty());
    } else {
        lemma_members_prefix(members, (k - 1) as nat);
        assert(members.take(k - 1).push(members[k - 1]) =~= members.take(k as int));
    }
}

} // verus!
