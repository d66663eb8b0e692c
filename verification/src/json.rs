//! JSON documents, as `serde_json` holds them.
//!
//! A `serde_json::Value` is opaque to the verifier. What the rest of the crate
//! knows of one, it knows through [`shape_of`] and the small functions below,
//! each of which makes one call into `serde_json`.

use vstd::prelude::*;

verus! {

/// `serde_json::Value`: one JSON document, or a part of one.
#[verifier::external_type_specification]
#[verifier::external_body]
pub struct ExValue(serde_json::Value);

/// `serde_json::Error`: why a text is no JSON document.
#[verifier::external_type_specification]
#[verifier::external_body]
pub struct ExError(serde_json::Error);

/// What a JSON value is, one level deep.
pub enum Shape {
    /// `null`.
    Null,
    /// `true` or `false`.
    Flag(bool),
    /// A number that `serde_json` keeps as an unsigned integer of 64 bits.
    Unsigned(u64),
    /// Any other number: one with a sign, a fraction or an exponent, or one too
    /// large for 64 bits.
    OtherNumber,
    /// A string.
    Text(Seq<char>),
    /// An array, with its items in order.
    List(Seq<serde_json::Value>),
    /// An object: its keys, each with its value.
    Object(Map<Seq<char>, serde_json::Value>),
}

/// The shape of a value: which variant of `serde_json::Value` it is, and what
/// that variant holds. A number is `Unsigned` exactly when `Value::as_u64` gives
/// it back.
pub uninterp spec fn shape_of(v: serde_json::Value) -> Shape;

/// What `serde_json::from_str` makes of a text.
pub uninterp spec fn parsed_text(text: Seq<char>) -> Result<serde_json::Value, serde_json::Error>;

/// What `serde_json::from_slice` makes of a run of bytes.
pub uninterp spec fn parsed_bytes(bytes: Seq<u8>) -> Result<serde_json::Value, serde_json::Error>;

/// The message of a parse error, as its `Display` impl writes it.
pub uninterp spec fn error_message(e: serde_json::Error) -> Seq<char>;

/// Calls `serde_json::from_str` for a `Value`. The result depends on the text
/// alone; nothing more is claimed of it.
#[verifier::external_body]
pub(crate) fn parse_text(text: &str) -> (r: Result<serde_json::Value, serde_json::Error>)
    ensures
        r == parsed_text(text@),
{
    serde_json::from_str::<serde_json::Value>(text)
}

/// Calls `serde_json::from_slice` for a `Value`. The result depends on the
/// bytes alone; nothing more is claimed of it.
#[verifier::external_body]
pub(crate) fn parse_bytes(bytes: &[u8]) -> (r: Result<serde_json::Value, serde_json::Error>)
    ensures
        r == parsed_bytes(bytes@),
{
    serde_json::from_slice::<serde_json::Value>(bytes)
}

/// Calls `to_string` on a `serde_json::Error`, which writes the error with its
/// `Display` impl. The text depends on the error alone.
#[verifier::external_body]
pub(crate) fn error_text(e: &serde_json::Error) -> (r: String)
    ensures
        r@ == error_message(*e),
{
    e.to_string()
}

/// Calls `Value::get` with a string key: the value under that key where `v` is
/// an object that has the key, and nothing otherwise.
#[verifier::external_body]
pub(crate) fn member<'a>(v: &'a serde_json::Value, key: &str) -> (r: Option<&'a serde_json::Value>)
    ensures
        match r {
            Some(x) => member_at(*v, key@) == Some(*x),
            None => member_at(*v, key@) is None,
        },
{
    v.get(key)
}

/// Calls `Value::as_str`: the string where `v` is one, and nothing otherwise.
#[verifier::external_body]
pub(crate) fn as_text(v: &serde_json::Value) -> (r: Option<&str>)
    ensures
        match r {
            Some(s) => shape_of(*v) == Shape::Text(s@),
            None => !(shape_of(*v) is Text),
        },
{
    v.as_str()
}

/// Calls `Value::as_array`: the items where `v` is an array, and nothing
/// otherwise.
#[verifier::external_body]
pub(crate) fn as_list(v: &serde_json::Value) -> (r: Option<&Vec<serde_json::Value>>)
    ensures
        match r {
            Some(items) => shape_of(*v) == Shape::List(items@),
            None => !(shape_of(*v) is List),
        },
{
    v.as_array()
}

/// Calls `Value::as_u64`: the number where `v` is one that `serde_json` keeps as
/// an unsigned integer, and nothing otherwise.
#[verifier::external_body]
pub(crate) fn as_unsigned(v: &serde_json::Value) -> (r: Option<u64>)
    ensures
        match r {
            Some(n) => shape_of(*v) == Shape::Unsigned(n),
            None => !(shape_of(*v) is Unsigned),
        },
{
    v.as_u64()
}

/// Calls `Value::as_bool`: the boolean where `v` is one, and nothing otherwise.
#[verifier::external_body]
pub(crate) fn as_flag(v: &serde_json::Value) -> (r: Option<bool>)
    ensures
        match r {
            Some(b) => shape_of(*v) == Shape::Flag(b),
            None => !(shape_of(*v) is Flag),
        },
{
    v.as_bool()
}

/// Calls `Value::as_object` and `Map::len`: how many members `v` has where it
/// is an object, and nothing otherwise. An object holds each key once.
#[verifier::external_body]
pub(crate) fn member_count(v: &serde_json::Value) -> (r: Option<usize>)
    ensures
        match r {
            Some(n) => shape_of(*v) matches Shape::Object(members) && members.dom().finite()
                && members.dom().len() == n,
            None => !(shape_of(*v) is Object),
        },
{
    v.as_object().map(serde_json::Map::len)
}

/// `Value::clone` copies the whole document: the copy is the same value.
pub assume_specification[ <serde_json::Value as Clone>::clone ](v: &serde_json::Value) -> (r:
    serde_json::Value)
    ensures
        r == *v,
;

/// Calls `Value::from` on a `u32`, which makes the number that `serde_json`
/// keeps as that unsigned integer.
#[verifier::external_body]
pub(crate) fn number(n: u32) -> (r: serde_json::Value)
    ensures
        shape_of(r) == Shape::Unsigned(n as u64),
{
    serde_json::Value::from(n)
}

/// Collects the entries into a `serde_json::Map` and wraps it as
/// `Value::Object`. The keys must differ from one another: the object then has
/// exactly these entries.
#[verifier::external_body]
pub(crate) fn object(entries: Vec<(String, serde_json::Value)>) -> (r: serde_json::Value)
    requires
        forall|i: int, j: int|
            0 <= i < j < entries@.len() ==> (#[trigger] entries@[i]).0@ != (#[trigger] entries@[j]).0@,
    ensures
        shape_of(r) == Shape::Object(members_of(entries@)),
{
    serde_json::Value::Object(entries.into_iter().collect())
}

/// The members of the object made from `entries`, each key with its value.
pub open spec fn members_of(entries: Seq<(String, serde_json::Value)>) -> Map<
    Seq<char>,
    serde_json::Value,
>
    decreases entries.len(),
{
    if entries.len() == 0 {
        Map::empty()
    } else {
        members_of(entries.drop_last()).insert(entries.last().0@, entries.last().1)
    }
}

/// The value under `key` where `v` is an object that has the key.
pub open spec fn member_at(v: serde_json::Value, key: Seq<char>) -> Option<serde_json::Value> {
    match shape_of(v) {
        Shape::Object(members) => if members.contains_key(key) {
            Some(members[key])
        } else {
            None
        },
        _ => None,
    }
}

/// Whether `v` is an object whose members are exactly those named: each of
/// them, and no other.
pub open spec fn has_members(v: serde_json::Value, names: Set<Seq<char>>) -> bool {
    shape_of(v) matches Shape::Object(members) && members.dom() =~= names
}

/// An object that has every one of `names`, and as many members as there are
/// names, has exactly those members.
pub proof fn lemma_members_by_count(v: serde_json::Value, names: Set<Seq<char>>)
    requires
        names.finite(),
        shape_of(v) matches Shape::Object(members) && members.dom().finite() && members.dom().len()
            == names.len(),
        forall|key: Seq<char>| names.contains(key) ==> member_at(v, key) is Some,
    ensures
        has_members(v, names),
{
    let members = shape_of(v)->Object_0;
    assert(names.subset_of(members.dom())) by {
        assert forall|key: Seq<char>| names.contains(key) implies members.dom().contains(key) by {
            assert(member_at(v, key) is Some);
        }
    }
    vstd::set_lib::lemma_subset_equality(names, members.dom());
}

/// The string under `key` where `v` is an object that has a string there.
pub open spec fn text_at(v: serde_json::Value, key: Seq<char>) -> Option<Seq<char>> {
    match member_at(v, key) {
        Some(x) => match shape_of(x) {
            Shape::Text(s) => Some(s),
            _ => None,
        },
        None => None,
    }
}

/// The items under `key` where `v` is an object that has an array there.
pub open spec fn list_at(v: serde_json::Value, key: Seq<char>) -> Option<Seq<serde_json::Value>> {
    match member_at(v, key) {
        Some(x) => match shape_of(x) {
            Shape::List(items) => Some(items),
            _ => None,
        },
        None => None,
    }
}

/// The number under `key` where `v` is an object that has an unsigned integer
/// there.
pub open spec fn unsigned_at(v: serde_json::Value, key: Seq<char>) -> Option<u64> {
    match member_at(v, key) {
        Some(x) => match shape_of(x) {
            Shape::Unsigned(n) => Some(n),
            _ => None,
        },
        None => None,
    }
}

/// The boolean under `key` where `v` is an object that has one there.
pub open spec fn flag_at(v: serde_json::Value, key: Seq<char>) -> Option<bool> {
    match member_at(v, key) {
        Some(x) => match shape_of(x) {
            Shape::Flag(b) => Some(b),
            _ => None,
        },
        None => None,
    }
}

/// Tells whether `v` is an object with `count` members.
pub fn has_member_count(v: &serde_json::Value, count: usize) -> (r: bool)
    ensures
        r == (shape_of(*v) matches Shape::Object(members) && members.dom().len() == count),
        r ==> shape_of(*v)->Object_0.dom().finite(),
{
    match member_count(v) {
        Some(n) => n == count,
        None => false,
    }
}

/// Reads the string member `key` of an object.
pub fn text_member(v: &serde_json::Value, key: &str) -> (r: Option<String>)
    ensures
        match r {
            Some(s) => text_at(*v, key@) == Some(s@),
            None => text_at(*v, key@) is None,
        },
{
    match member(v, key) {
        Some(x) => match as_text(x) {
            Some(s) => Some(s.to_owned()),
            None => None,
        },
        None => None,
    }
}

/// Reads the array member `key` of an object.
pub fn list_member<'a>(v: &'a serde_json::Value, key: &str) -> (r: Option<
    &'a Vec<serde_json::Value>,
>)
    ensures
        match r {
            Some(items) => list_at(*v, key@) == Some(items@),
            None => list_at(*v, key@) is None,
        },
{
    match member(v, key) {
        Some(x) => as_list(x),
        None => None,
    }
}

/// Reads the unsigned integer member `key` of an object.
pub fn unsigned_member(v: &serde_json::Value, key: &str) -> (r: Option<u64>)
    ensures
        r == unsigned_at(*v, key@),
{
    match member(v, key) {
        Some(x) => as_unsigned(x),
        None => None,
    }
}

/// Reads the boolean member `key` of an object.
pub fn flag_member(v: &serde_json::Value, key: &str) -> (r: Option<bool>)
    ensures
        r == flag_at(*v, key@),
{
    match member(v, key) {
        Some(x) => as_flag(x),
        None => None,
    }
}

} // verus!
