//! Reading the members of an object: which are there, and whether each has
//! the form its place asks for.

use vstd::prelude::*;
use vstd::string::*;
use serde_json::Value;
use crate::json::{
    JsonKind, JsonNumber, JsonTree, copy_of, distinct_names, kind_of, members_view, object_members, signed_of,
    text_of, unsigned_of, value_tree,
};

verus! {

/// The content of the first member called `name` at or after `start`.
pub open spec fn member_from(
    members: Seq<(Seq<char>, JsonTree)>,
    name: Seq<char>,
    start: int,
) -> Option<JsonTree>
    decreases members.len() - start,
{
    if start < 0 || start >= members.len() {
        None
    } else if members[start].0 == name {
        Some(members[start].1)
    } else {
        member_from(members, name, start + 1)
    }
}

/// The content of the member called `name`, if there is one.
pub open spec fn member(members: Seq<(Seq<char>, JsonTree)>, name: Seq<char>) -> Option<JsonTree> {
    member_from(members, name, 0)
}

/// A member that is absent or null counts as not given.
pub open spec fn given(field: Option<JsonTree>) -> Option<JsonTree> {
    match field {
        Some(JsonTree::Null) => None,
        other => other,
    }
}

/// An optional string: `Some(None)` where it is not given, `None` where
/// something other than a string stands in its place.
pub open spec fn optional_text(field: Option<JsonTree>) -> Option<Option<Seq<char>>> {
    match given(field) {
        None => Some(None),
        Some(JsonTree::Text(text)) => Some(Some(text)),
        Some(_) => None,
    }
}

/// An optional integer that a `u64` holds.
pub open spec fn optional_u64(field: Option<JsonTree>) -> Option<Option<u64>> {
    match given(field) {
        None => Some(None),
        Some(JsonTree::Number(JsonNumber::Integer(n))) => if 0 <= n <= u64::MAX {
            Some(Some(n as u64))
        } else {
            None
        },
        Some(_) => None,
    }
}

/// An optional integer that an `i32` holds.
pub open spec fn optional_i32(field: Option<JsonTree>) -> Option<Option<i32>> {
    match given(field) {
        None => Some(None),
        Some(JsonTree::Number(JsonNumber::Integer(n))) => if i32::MIN <= n <= i32::MAX {
            Some(Some(n as i32))
        } else {
            None
        },
        Some(_) => None,
    }
}

/// An optional object, as its members.
pub open spec fn optional_object(field: Option<JsonTree>) -> Option<
    Option<Seq<(Seq<char>, JsonTree)>>,
> {
    match given(field) {
        None => Some(None),
        Some(JsonTree::Object(members)) => Some(Some(members)),
        Some(_) => None,
    }
}

/// What a looked-up member holds.
pub open spec fn field_tree(field: Option<&Value>) -> Option<JsonTree> {
    match field {
        Some(value) => Some(value_tree(*value)),
        None => None,
    }
}

/// The text of an optional string.
pub open spec fn text_view(text: Option<String>) -> Option<Seq<char>> {
    match text {
        Some(text) => Some(text@),
        None => None,
    }
}

/// An object carried through as `serde_json` holds it.
#[derive(Debug)]
pub struct JsonObject {
    value: Value,
}

impl View for JsonObject {
    type V = Seq<(Seq<char>, JsonTree)>;

    closed spec fn view(&self) -> Seq<(Seq<char>, JsonTree)> {
        value_tree(self.value)->Object_0
    }
}

/// The members of an optional object.
pub open spec fn object_view(object: Option<JsonObject>) -> Option<Seq<(Seq<char>, JsonTree)>> {
    match object {
        Some(object) => Some(object@),
        None => None,
    }
}

impl JsonObject {
    #[verifier::type_invariant]
    spec fn inv(self) -> bool {
        value_tree(self.value) is Object
    }

    /// Takes `value` where it is an object.
    pub fn from_value(value: &Value) -> (object: Option<JsonObject>)
        ensures
            match value_tree(*value) {
                JsonTree::Object(members) => object matches Some(got) && got@ == members,
                _ => object is None,
            },
    {
        match kind_of(value) {
            JsonKind::Object => Some(JsonObject { value: copy_of(value) }),
            _ => None,
        }
    }

    /// The members, in the object's order.
    pub fn members(&self) -> (members: Vec<(String, Value)>)
        ensures
            members_view(members@) == self@,
            distinct_names(members_view(members@)),
    {
        proof {
            use_type_invariant(self);
        }
        match object_members(&self.value) {
            Some(members) => members,
            None => Vec::new(),
        }
    }

    /// The object as one value.
    pub fn value(&self) -> (value: Value)
        ensures
            value_tree(value) == JsonTree::Object(self@),
    {
        proof {
            use_type_invariant(self);
        }
        copy_of(&self.value)
    }
}

/// A number carried through as `serde_json` holds it.
#[derive(Debug)]
pub struct JsonNumeral {
    value: Value,
}

impl View for JsonNumeral {
    type V = JsonNumber;

    closed spec fn view(&self) -> JsonNumber {
        value_tree(self.value)->Number_0
    }
}

/// The integer that a number is, where it is one that lies between the
/// least `i64` and the greatest `u64`.
pub open spec fn whole_of(number: JsonNumber) -> Option<i128> {
    match number {
        JsonNumber::Integer(n) => if i64::MIN <= n <= u64::MAX {
            Some(n as i128)
        } else {
            None
        },
        JsonNumber::Real(_) => None,
    }
}

impl JsonNumeral {
    #[verifier::type_invariant]
    spec fn inv(self) -> bool {
        value_tree(self.value) is Number
    }

    /// Takes `value` where it is a number.
    pub fn from_value(value: &Value) -> (number: Option<JsonNumeral>)
        ensures
            match value_tree(*value) {
                JsonTree::Number(held) => number matches Some(got) && got@ == held,
                _ => number is None,
            },
    {
        match kind_of(value) {
            JsonKind::Number => Some(JsonNumeral { value: copy_of(value) }),
            _ => None,
        }
    }

    /// The number as one value.
    pub fn value(&self) -> (value: Value)
        ensures
            value_tree(value) == JsonTree::Number(self@),
    {
        proof {
            use_type_invariant(self);
        }
        copy_of(&self.value)
    }

    /// The number as an integer, where it is one.
    pub fn whole(&self) -> (whole: Option<i128>)
        ensures
            whole == whole_of(self@),
    {
        proof {
            use_type_invariant(self);
        }
        match unsigned_of(&self.value) {
            Some(number) => Some(number as i128),
            None => match signed_of(&self.value) {
                Some(number) => Some(number as i128),
                None => None,
            },
        }
    }
}

/// Looks up the member called `name`.
pub fn find<'a>(members: &'a Vec<(String, Value)>, name: &str) -> (found: Option<&'a Value>)
    ensures
        field_tree(found) == member(members_view(members@), name@),
{
    let wanted = String::from_str(name);
    let mut i: usize = 0;
    while i < members.len()
        invariant
            i <= members.len(),
            wanted@ == name@,
            member(members_view(members@), name@) == member_from(
                members_view(members@),
                name@,
                i as int,
            ),
        decreases members.len() - i,
    {
        if members[i].0 == wanted {
            return Some(&members[i].1);
        }
        i = i + 1;
    }
    None
}

/// Reads an optional string.
pub fn read_text(field: Option<&Value>) -> (read: Option<Option<String>>)
    ensures
        match read {
            Some(text) => optional_text(field_tree(field)) == Some(text_view(text)),
            None => optional_text(field_tree(field)) is None,
        },
{
    match field {
        None => Some(None),
        Some(value) => match kind_of(value) {
            JsonKind::Null => Some(None),
            JsonKind::Text => Some(text_of(value)),
            _ => None,
        },
    }
}

/// Reads an optional integer that a `u64` holds.
pub fn read_u64(field: Option<&Value>) -> (read: Option<Option<u64>>)
    ensures
        read == optional_u64(field_tree(field)),
{
    match field {
        None => Some(None),
        Some(value) => match kind_of(value) {
            JsonKind::Null => Some(None),
            _ => Some(Some(unsigned_of(value)?)),
        },
    }
}

/// Reads an optional integer that an `i32` holds.
pub fn read_i32(field: Option<&Value>) -> (read: Option<Option<i32>>)
    ensures
        read == optional_i32(field_tree(field)),
{
    match field {
        None => Some(None),
        Some(value) => match kind_of(value) {
            JsonKind::Null => Some(None),
            _ => {
                let number = signed_of(value)?;
                if -2147483648 <= number && number <= 2147483647 {
                    Some(Some(number as i32))
                } else {
                    None
                }
            },
        },
    }
}

/// Reads an optional object.
pub fn read_object(field: Option<&Value>) -> (read: Option<Option<JsonObject>>)
    ensures
        match read {
            Some(object) => optional_object(field_tree(field)) == Some(object_view(object)),
            None => optional_object(field_tree(field)) is None,
        },
{
    match field {
        None => Some(None),
        Some(value) => match kind_of(value) {
            JsonKind::Null => Some(None),
            _ => Some(Some(JsonObject::from_value(value)?)),
        },
    }
}

} // verus!
