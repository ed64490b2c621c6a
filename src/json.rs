//! A plain model of JSON values, as read from and written to the credential
//! file and the token endpoint.
use vstd::prelude::*;
use crate::model::opt_view;

verus! {

/// A JSON value. Numbers that are non-negative integers fitting in `u64` are
/// held as `Unsigned`; every other number keeps its textual form in `Number`.
#[derive(Debug)]
pub enum JsonValue {
    Null,
    Bool(bool),
    Unsigned(u64),
    Number(String),
    Str(String),
    Array(Vec<JsonValue>),
    Object(Vec<(String, JsonValue)>),
}

/// The mathematical counterpart of [`JsonValue`].
pub enum JsonView {
    Null,
    Bool(bool),
    Unsigned(u64),
    Number(Seq<char>),
    Str(Seq<char>),
    Array(Seq<JsonView>),
    Object(Seq<(Seq<char>, JsonView)>),
}

pub open spec fn json_view(j: JsonValue) -> JsonView
    decreases j,
{
    match j {
        JsonValue::Null => JsonView::Null,
        JsonValue::Bool(b) => JsonView::Bool(b),
        JsonValue::Unsigned(n) => JsonView::Unsigned(n),
        JsonValue::Number(s) => JsonView::Number(s@),
        JsonValue::Str(s) => JsonView::Str(s@),
        JsonValue::Array(items) => JsonView::Array(
            Seq::new(items@.len(), |i: int| if 0 <= i < items@.len() { json_view(items@[i]) } else { JsonView::Null }),
        ),
        JsonValue::Object(fields) => JsonView::Object(
            Seq::new(fields@.len(), |i: int| if 0 <= i < fields@.len() { (fields@[i].0@, json_view(fields@[i].1)) } else { (Seq::empty(), JsonView::Null) }),
        ),
    }
}

impl View for JsonValue {
    type V = JsonView;

    open spec fn view(&self) -> JsonView {
        json_view(*self)
    }
}

/// The view of the members of an object, in order.
pub open spec fn members_view(members: Seq<(String, JsonValue)>) -> Seq<(Seq<char>, JsonView)> {
    Seq::new(
        members.len(),
        |i: int|
            if 0 <= i < members.len() {
                (members[i].0@, json_view(members[i].1))
            } else {
                (Seq::empty(), JsonView::Null)
            },
    )
}

/// The view of an object is the object of its members' views.
pub proof fn lemma_object_view(members: Vec<(String, JsonValue)>)
    ensures
        JsonValue::Object(members)@ == JsonView::Object(members_view(members@)),
{
    assert(json_view(JsonValue::Object(members)) == JsonView::Object(members_view(members@))) by {
        if let JsonView::Object(a) = json_view(JsonValue::Object(members)) {
            assert(a =~= members_view(members@));
        }
    }
}

/// The view of an array is the array of its items' views.
pub proof fn lemma_array_view(items: Vec<JsonValue>)
    ensures
        JsonValue::Array(items)@ == JsonView::Array(items@.map_values(|x: JsonValue| json_view(x))),
{
    assert(json_view(JsonValue::Array(items)) == JsonView::Array(
        items@.map_values(|x: JsonValue| json_view(x)),
    )) by {
        if let JsonView::Array(a) = json_view(JsonValue::Array(items)) {
            assert(a =~= items@.map_values(|x: JsonValue| json_view(x)));
        }
    }
}

/// The value of the first member named `key`, looking from position `i` on.
pub open spec fn member_from(members: Seq<(Seq<char>, JsonView)>, key: Seq<char>, i: int) -> Option<
    JsonView,
>
    decreases members.len() - i,
{
    if i < 0 || i >= members.len() {
        None
    } else if members[i].0 == key {
        Some(members[i].1)
    } else {
        member_from(members, key, i + 1)
    }
}

/// The value of the first member named `key`.
pub open spec fn member(members: Seq<(Seq<char>, JsonView)>, key: Seq<char>) -> Option<JsonView> {
    member_from(members, key, 0)
}

/// A string that must be present.
pub open spec fn required_string(v: Option<JsonView>) -> Option<Seq<char>> {
    match v {
        Some(JsonView::Str(s)) => Some(s),
        _ => None,
    }
}

/// A string that may be absent or null: `None` when it is something else.
pub open spec fn optional_string(v: Option<JsonView>) -> Option<Option<Seq<char>>> {
    match v {
        None => Some(None),
        Some(JsonView::Null) => Some(None),
        Some(JsonView::Str(s)) => Some(Some(s)),
        _ => None,
    }
}

/// An unsigned integer that may be absent or null: `None` when it is something else.
pub open spec fn optional_unsigned(v: Option<JsonView>) -> Option<Option<u64>> {
    match v {
        None => Some(None),
        Some(JsonView::Null) => Some(None),
        Some(JsonView::Unsigned(n)) => Some(Some(n)),
        _ => None,
    }
}

/// The JSON form of an optional string: the string, or null.
pub open spec fn optional_string_json(o: Option<Seq<char>>) -> JsonView {
    match o {
        Some(s) => JsonView::Str(s),
        None => JsonView::Null,
    }
}

/// The JSON form of an optional integer: the integer, or null.
pub open spec fn optional_unsigned_json(o: Option<u64>) -> JsonView {
    match o {
        Some(n) => JsonView::Unsigned(n),
        None => JsonView::Null,
    }
}

/// The view of an optional string that may itself be missing.
pub open spec fn nested_opt_view(o: Option<Option<String>>) -> Option<Option<Seq<char>>> {
    match o {
        Some(Some(s)) => Some(Some(s@)),
        Some(None) => Some(None),
        None => None,
    }
}

/// Finds the first member named `key`.
pub fn find_member<'a>(members: &'a Vec<(String, JsonValue)>, key: &str) -> (r: Option<
    &'a JsonValue,
>)
    ensures
        match r {
            Some(v) => member(members_view(members@), key@) == Some(v@),
            None => member(members_view(members@), key@) is None,
        },
{
    let ghost ms = members_view(members@);
    let wanted = key.to_owned();
    let mut i: usize = 0;
    while i < members.len()
        invariant
            0 <= i <= members.len(),
            ms == members_view(members@),
            member(ms, key@) == member_from(ms, key@, i as int),
            wanted@ == key@,
        decreases members.len() - i,
    {
        if members[i].0 == wanted {
            return Some(&members[i].1);
        }
        i = i + 1;
    }
    None
}

/// Reads a member that must be a string.
pub fn read_required_string(members: &Vec<(String, JsonValue)>, key: &str) -> (r: Option<String>)
    ensures
        opt_view(r) == required_string(member(members_view(members@), key@)),
{
    match find_member(members, key) {
        Some(JsonValue::Str(s)) => Some(s.clone()),
        _ => None,
    }
}

/// Reads a member that may be absent, null or a string.
pub fn read_optional_string(members: &Vec<(String, JsonValue)>, key: &str) -> (r: Option<
    Option<String>,
>)
    ensures
        nested_opt_view(r) == optional_string(member(members_view(members@), key@)),
{
    match find_member(members, key) {
        None => Some(None),
        Some(JsonValue::Null) => Some(None),
        Some(JsonValue::Str(s)) => Some(Some(s.clone())),
        _ => None,
    }
}

/// Reads a member that may be absent, null or an unsigned integer.
pub fn read_optional_unsigned(members: &Vec<(String, JsonValue)>, key: &str) -> (r: Option<
    Option<u64>,
>)
    ensures
        r == optional_unsigned(member(members_view(members@), key@)),
{
    match find_member(members, key) {
        None => Some(None),
        Some(JsonValue::Null) => Some(None),
        Some(JsonValue::Unsigned(n)) => Some(Some(*n)),
        _ => None,
    }
}

/// The JSON form of an optional string.
pub fn optional_string_value(o: &Option<String>) -> (r: JsonValue)
    ensures
        r@ == optional_string_json(opt_view(*o)),
{
    match o {
        Some(s) => JsonValue::Str(s.clone()),
        None => JsonValue::Null,
    }
}

/// The JSON form of an optional integer.
pub fn optional_unsigned_value(o: Option<u64>) -> (r: JsonValue)
    ensures
        r@ == optional_unsigned_json(o),
{
    match o {
        Some(n) => JsonValue::Unsigned(n),
        None => JsonValue::Null,
    }
}

} // verus!
