//! JSON values.
//!
//! The values themselves are `serde_json::Value`s, which this library parses,
//! walks, builds and prints through `serde_json`. Contracts speak of a value
//! through its content, a [`Json`].

use vstd::prelude::*;

verus! {

/// `serde_json::Value`, carried as it is; what it holds is spoken of by
/// [`json_of`].
#[verifier::external_type_specification]
#[verifier::external_body]
pub struct ExValue(serde_json::Value);

/// `serde_json::Error`, carried as it is; what it displays is spoken of by
/// [`message_of`].
#[verifier::external_type_specification]
#[verifier::external_body]
pub struct ExError(serde_json::Error);

/// The content of a JSON value.
pub enum Json {
    Null,
    Bool(bool),
    /// A number, as the numeral that prints it.
    Number(Seq<char>),
    Text(Seq<char>),
    Array(Seq<Json>),
    /// An object: each name it holds, once, with its value.
    Object(Map<Seq<char>, Json>),
}

/// The content of `value`.
pub uninterp spec fn json_of(value: serde_json::Value) -> Json;

/// The message that `error` displays.
pub uninterp spec fn message_of(error: serde_json::Error) -> Seq<char>;

/// What parsing `text` gives: the content of the value read, or the message
/// of the error found.
pub uninterp spec fn parse_of(text: Seq<char>) -> Result<Json, Seq<char>>;

/// The indented text of a value with content `json`.
pub uninterp spec fn pretty_text(json: Json) -> Seq<char>;

/// The one-line text of a value with content `json`.
pub uninterp spec fn compact_text(json: Json) -> Seq<char>;

/// The contents of the values in `items`, in order.
pub open spec fn jsons_of(items: Seq<serde_json::Value>) -> Seq<Json> {
    items.map_values(|item: serde_json::Value| json_of(item))
}

/// What `json` holds under `name`: nothing unless it is an object with that
/// name in it.
pub open spec fn member_of(json: Json, name: Seq<char>) -> Option<Json> {
    match json {
        Json::Object(members) => if members.contains_key(name) {
            Some(members[name])
        } else {
            None
        },
        _ => None,
    }
}

/// The text of `json`: nothing unless it is a string.
pub open spec fn text_of(json: Json) -> Option<Seq<char>> {
    match json {
        Json::Text(text) => Some(text),
        _ => None,
    }
}

/// `json` is an object made of `pairs`: it holds exactly their names, and
/// under each name the value of a pair with that name.
pub open spec fn made_of(json: Json, pairs: Seq<(String, serde_json::Value)>) -> bool {
    &&& json is Object
    &&& forall|i: int|
        0 <= i < pairs.len() ==> (json->Object_0).contains_key(#[trigger] pairs[i].0@)
    &&& forall|name: Seq<char>| #[trigger]
        (json->Object_0).contains_key(name) ==> exists|i: int|
            0 <= i < pairs.len() && (#[trigger] pairs[i]).0@ == name && json_of(pairs[i].1)
                == (json->Object_0)[name]
}

/// Calls `serde_json::from_str` for a `Value`. The contract gives the two
/// outcomes their names: the content of the value, or the error's message.
#[verifier::external_body]
pub(crate) fn parse(text: &str) -> (r: Result<serde_json::Value, serde_json::Error>)
    ensures
        match r {
            Ok(value) => parse_of(text@) == Ok::<Json, Seq<char>>(json_of(value)),
            Err(error) => parse_of(text@) == Err::<Json, Seq<char>>(message_of(error)),
        },
{
    serde_json::from_str::<serde_json::Value>(text)
}

/// Calls `to_string` on a `serde_json::Error`, which writes what the error
/// displays.
#[verifier::external_body]
pub(crate) fn error_message(error: &serde_json::Error) -> (r: String)
    ensures
        r@ == message_of(*error),
{
    error.to_string()
}

/// Calls `serde_json::to_string_pretty` on a `Value`. Writing a `Value` into
/// memory cannot fail; the text depends on the content alone, and the
/// contract names it.
#[verifier::external_body]
pub(crate) fn to_pretty_text(value: &serde_json::Value) -> (r: String)
    ensures
        r@ == pretty_text(json_of(*value)),
{
    serde_json::to_string_pretty(value).unwrap()
}

/// Calls `serde_json::to_string` on a `Value`: as [`to_pretty_text`], on one
/// line.
#[verifier::external_body]
pub(crate) fn to_compact_text(value: &serde_json::Value) -> (r: String)
    ensures
        r@ == compact_text(json_of(*value)),
{
    serde_json::to_string(value).unwrap()
}

/// Calls `Value::get` with a name: the value that an object holds under the
/// name, nothing for a missing name or for a value that is no object.
#[verifier::external_body]
pub(crate) fn member<'a>(value: &'a serde_json::Value, name: &str) -> (r: Option<
    &'a serde_json::Value,
>)
    ensures
        match r {
            Some(found) => member_of(json_of(*value), name@) == Some(json_of(*found)),
            None => member_of(json_of(*value), name@) is None,
        },
{
    value.get(name)
}

/// Calls `Value::as_str`: the text of a string, nothing for any other value.
#[verifier::external_body]
pub(crate) fn as_text<'a>(value: &'a serde_json::Value) -> (r: Option<&'a str>)
    ensures
        match r {
            Some(text) => text_of(json_of(*value)) == Some(text@),
            None => text_of(json_of(*value)) is None,
        },
{
    value.as_str()
}

/// Takes the items out of `Value::Array`, and hands any other value back.
#[verifier::external_body]
pub(crate) fn into_items(value: serde_json::Value) -> (r: Result<
    Vec<serde_json::Value>,
    serde_json::Value,
>)
    ensures
        match r {
            Ok(items) => json_of(value) == Json::Array(jsons_of(items@)),
            Err(other) => other == value && !(json_of(value) is Array),
        },
{
    match value {
        serde_json::Value::Array(items) => Ok(items),
        other => Err(other),
    }
}

/// Builds `Value::Array` around `items`.
#[verifier::external_body]
pub(crate) fn array(items: Vec<serde_json::Value>) -> (r: serde_json::Value)
    ensures
        json_of(r) == Json::Array(jsons_of(items@)),
{
    serde_json::Value::Array(items)
}

/// Builds `Value::String` around `text`.
#[verifier::external_body]
pub(crate) fn string(text: String) -> (r: serde_json::Value)
    ensures
        json_of(r) == Json::Text(text@),
{
    serde_json::Value::String(text)
}

/// Builds `Value::Null`.
#[verifier::external_body]
pub(crate) fn null() -> (r: serde_json::Value)
    ensures
        json_of(r) == Json::Null,
{
    serde_json::Value::Null
}

/// Collects `pairs` into a `serde_json::Map` and builds `Value::Object`
/// around it. The map keeps one value for each name; where two pairs share a
/// name, the contract leaves open which of their values stays.
#[verifier::external_body]
pub(crate) fn object(pairs: Vec<(String, serde_json::Value)>) -> (r: serde_json::Value)
    ensures
        made_of(json_of(r), pairs@),
{
    serde_json::Value::Object(pairs.into_iter().collect())
}

/// An object made of one pair holds that pair and nothing else.
pub proof fn lemma_made_of_one(json: Json, pairs: Seq<(String, serde_json::Value)>)
    requires
        pairs.len() == 1,
        made_of(json, pairs),
    ensures
        json == Json::Object(
            Map::<Seq<char>, Json>::empty().insert(pairs[0].0@, json_of(pairs[0].1)),
        ),
{
    let members = json->Object_0;
    let one = Map::<Seq<char>, Json>::empty().insert(pairs[0].0@, json_of(pairs[0].1));
    assert(members.contains_key(pairs[0].0@));
    assert forall|name: Seq<char>| members.contains_key(name) implies name == pairs[0].0@
        && members[name] == json_of(pairs[0].1) by {
        let i = choose|i: int|
            0 <= i < pairs.len() && (#[trigger] pairs[i]).0@ == name && json_of(pairs[i].1)
                == members[name];
        assert(i == 0);
    }
    assert(members =~= one);
}

/// No two of `pairs` share a name.
pub open spec fn distinct_names(pairs: Seq<(String, serde_json::Value)>) -> bool {
    forall|i: int, j: int|
        0 <= i < j < pairs.len() ==> (#[trigger] pairs[i]).0@ != (#[trigger] pairs[j]).0@
}

/// Pairs with distinct names make one object only.
pub proof fn lemma_made_of_unique(a: Json, b: Json, pairs: Seq<(String, serde_json::Value)>)
    requires
        distinct_names(pairs),
        made_of(a, pairs),
        made_of(b, pairs),
    ensures
        a == b,
{
    let left = a->Object_0;
    let right = b->Object_0;
    assert forall|name: Seq<char>| left.contains_key(name) implies right.contains_key(name)
        && left[name] == right[name] by {
        let i = choose|i: int|
            0 <= i < pairs.len() && (#[trigger] pairs[i]).0@ == name && json_of(pairs[i].1)
                == left[name];
        assert(right.contains_key(pairs[i].0@));
        let j = choose|j: int|
            0 <= j < pairs.len() && (#[trigger] pairs[j]).0@ == name && json_of(pairs[j].1)
                == right[name];
        assert(i == j);
    }
    assert forall|name: Seq<char>| right.contains_key(name) implies left.contains_key(name) by {
        let j = choose|j: int|
            0 <= j < pairs.len() && (#[trigger] pairs[j]).0@ == name && json_of(pairs[j].1)
                == right[name];
        assert(left.contains_key(pairs[j].0@));
    }
    assert(left =~= right);
}

/// The object `{ name: value }`.
pub fn object_with(name: &str, value: serde_json::Value) -> (r: serde_json::Value)
    ensures
        json_of(r) == Json::Object(Map::<Seq<char>, Json>::empty().insert(name@, json_of(value))),
{
    let mut pairs: Vec<(String, serde_json::Value)> = Vec::new();
    pairs.push((String::from_str(name), value));
    let r = object(pairs);
    proof {
        lemma_made_of_one(json_of(r), pairs@);
    }
    r
}

} // verus!
