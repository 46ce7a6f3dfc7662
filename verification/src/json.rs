//! Structured values as `serde_json` holds them, and the calls into it.
//!
//! A `serde_json::Value` is opaque to the verifier. What it holds is named by
//! [`value_tree`]; every function below that calls into `serde_json` is
//! trusted to behave as its contract says over that name.

use vstd::prelude::*;

verus! {

/// A JSON number: an integer between `i64::MIN` and `u64::MAX`, or any other
/// number, kept as the literal it is written out as.
pub enum JsonNumber {
    Integer(int),
    Real(Seq<char>),
}

/// What a structured value holds. An object lists its members in the order
/// in which the value hands them out.
pub enum JsonTree {
    Null,
    Bool(bool),
    Number(JsonNumber),
    Text(Seq<char>),
    List(Seq<JsonTree>),
    Object(Members),
}

/// The members of an object: names with contents, in the object's order.
pub type Members = Seq<(Seq<char>, JsonTree)>;

/// `serde_json::Value`, made known so that it can stand in signatures and
/// fields. Nothing of its inside is visible here.
#[verifier::external_type_specification]
#[verifier::external_body]
pub struct ExValue(serde_json::Value);

/// What `value` holds.
pub uninterp spec fn value_tree(value: serde_json::Value) -> JsonTree;

/// The value that `serde_json::from_str` reads from `text`, if it reads one.
pub uninterp spec fn json_parse(text: Seq<char>) -> Option<JsonTree>;

/// The single-line text that `serde_json` writes for a value.
pub uninterp spec fn json_compact(tree: JsonTree) -> Seq<char>;

/// The indented text that `serde_json::to_string_pretty` writes for a value.
pub uninterp spec fn json_pretty(tree: JsonTree) -> Seq<char>;

/// The object that `serde_json` makes of a list of named values.
pub uninterp spec fn json_object(members: Members) -> JsonTree;

/// Whether no name occurs twice among the members.
pub open spec fn distinct_names(members: Members) -> bool {
    forall|i: int, j: int|
        0 <= i < j < members.len() ==> (#[trigger] members[i]).0 != (#[trigger] members[j]).0
}

/// The members of an object as plain pairs of name and content.
pub open spec fn members_view(members: Seq<(String, serde_json::Value)>) -> Members {
    Seq::new(members.len(), |i: int| (members[i].0@, value_tree(members[i].1)))
}

/// The contents of a list of values.
pub open spec fn items_view(items: Seq<serde_json::Value>) -> Seq<JsonTree> {
    Seq::new(items.len(), |i: int| value_tree(items[i]))
}

/// `serde_json::from_str::<Value>`: the value read from `text`, or `None`
/// where the text is not one JSON value. The result depends on the text alone.
#[verifier::external_body]
pub(crate) fn parse_value(text: &str) -> (parsed: Option<serde_json::Value>)
    ensures
        match parsed {
            Some(value) => json_parse(text@) == Some(value_tree(value)),
            None => json_parse(text@) is None,
        },
{
    serde_json::from_str::<serde_json::Value>(text).ok()
}

/// `Value::as_object` and `Map::iter`: the members of an object, each copied,
/// in the map's order; `None` for any other value. A map holds each name
/// once.
#[verifier::external_body]
pub(crate) fn object_members(value: &serde_json::Value) -> (members: Option<
    Vec<(String, serde_json::Value)>,
>)
    ensures
        match value_tree(*value) {
            JsonTree::Object(held) => members matches Some(got) && members_view(got@) == held
                && distinct_names(held),
            _ => members is None,
        },
{
    value.as_object().map(|map| map.iter().map(|(name, inner)| (name.clone(), inner.clone())).collect())
}

/// `Value::as_array`: the items of an array, each copied, in order; `None`
/// for any other value.
#[verifier::external_body]
pub(crate) fn array_items(value: &serde_json::Value) -> (items: Option<Vec<serde_json::Value>>)
    ensures
        match value_tree(*value) {
            JsonTree::List(held) => items matches Some(got) && items_view(got@) == held,
            _ => items is None,
        },
{
    value.as_array().map(|items| items.clone())
}

/// `Value::as_str`: the text of a string value; `None` for any other value.
#[verifier::external_body]
pub(crate) fn text_of(value: &serde_json::Value) -> (text: Option<String>)
    ensures
        match value_tree(*value) {
            JsonTree::Text(held) => text matches Some(got) && got@ == held,
            _ => text is None,
        },
{
    value.as_str().map(|text| text.to_owned())
}

/// `Value::as_u64`: the number where the value is a non-negative integer;
/// `None` for a negative one, for any other number and for any other value.
#[verifier::external_body]
pub(crate) fn unsigned_of(value: &serde_json::Value) -> (number: Option<u64>)
    ensures
        match value_tree(*value) {
            JsonTree::Number(JsonNumber::Integer(n)) if 0 <= n <= u64::MAX => number == Some(
                n as u64,
            ),
            _ => number is None,
        },
{
    value.as_u64()
}

/// `Value::as_i64`: the number where the value is an integer that an `i64`
/// holds; `None` for a larger one, for any other number and for any other
/// value.
#[verifier::external_body]
pub(crate) fn signed_of(value: &serde_json::Value) -> (number: Option<i64>)
    ensures
        match value_tree(*value) {
            JsonTree::Number(JsonNumber::Integer(n)) if i64::MIN <= n <= i64::MAX => number
                == Some(n as i64),
            _ => number is None,
        },
{
    value.as_i64()
}

/// Which of the six forms a value has.
#[derive(Debug, Clone, Copy, PartialEq, Eq, Structural)]
pub enum JsonKind {
    Null,
    Bool,
    Number,
    Text,
    List,
    Object,
}

/// The form of what a value holds.
pub open spec fn tree_kind(tree: JsonTree) -> JsonKind {
    match tree {
        JsonTree::Null => JsonKind::Null,
        JsonTree::Bool(_) => JsonKind::Bool,
        JsonTree::Number(_) => JsonKind::Number,
        JsonTree::Text(_) => JsonKind::Text,
        JsonTree::List(_) => JsonKind::List,
        JsonTree::Object(_) => JsonKind::Object,
    }
}

/// The variant of a `Value`: null, boolean, number, string, array or object.
#[verifier::external_body]
pub(crate) fn kind_of(value: &serde_json::Value) -> (kind: JsonKind)
    ensures
        kind == tree_kind(value_tree(*value)),
{
    match value {
        serde_json::Value::Null => JsonKind::Null,
        serde_json::Value::Bool(_) => JsonKind::Bool,
        serde_json::Value::Number(_) => JsonKind::Number,
        serde_json::Value::String(_) => JsonKind::Text,
        serde_json::Value::Array(_) => JsonKind::List,
        serde_json::Value::Object(_) => JsonKind::Object,
    }
}

/// `Value::to_string`: the value written on one line. The text depends on
/// what the value holds alone.
#[verifier::external_body]
pub(crate) fn compact_text(value: &serde_json::Value) -> (text: String)
    ensures
        text@ == json_compact(value_tree(*value)),
{
    value.to_string()
}

/// `serde_json::to_string_pretty`: the value written with two-space
/// indentation. The text depends on what the value holds alone.
#[verifier::external_body]
pub(crate) fn pretty_text(value: &serde_json::Value) -> (text: String)
    ensures
        text@ == json_pretty(value_tree(*value)),
{
    serde_json::to_string_pretty(value).unwrap_or_default()
}

/// `Value::clone`: a value that holds the same.
#[verifier::external_body]
pub(crate) fn copy_of(value: &serde_json::Value) -> (copy: serde_json::Value)
    ensures
        value_tree(copy) == value_tree(*value),
{
    value.clone()
}

/// `Value::Object` over a `Map` collected from `members`: the object with
/// these members. What it holds depends on the names and contents alone.
#[verifier::external_body]
pub(crate) fn object_of(members: &Vec<(String, serde_json::Value)>) -> (object: serde_json::Value)
    ensures
        value_tree(object) == json_object(members_view(members@)),
{
    serde_json::Value::Object(members.iter().cloned().collect())
}

} // verus!
