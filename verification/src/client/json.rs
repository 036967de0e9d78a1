//! A one-level reading of JSON text.
//!
//! A document is read one level at a time: scalars come out as values,
//! while the elements of an array and the members of an object come out as
//! the JSON text of each, to be read again when somebody asks for them.

use vstd::prelude::*;
use vstd::string::*;
use crate::client::error::JupyterApiError;
use crate::client::text::same_text;

verus! {

/// The top level of a JSON document.
#[derive(Debug, Clone, PartialEq)]
pub enum JsonNode {
    Null,
    Bool(bool),
    /// A number: its value where it is an integer in the range of `i64`,
    /// and its decimal text.
    Number(Option<i64>, String),
    Text(String),
    /// The JSON text of each element, in order.
    Array(Vec<String>),
    /// The key and the JSON text of each member.
    Object(Vec<(String, String)>),
}

/// The members of an object: the key and the JSON text of each.
pub type Members = Seq<(Seq<char>, Seq<char>)>;

/// The mathematical value of a [`JsonNode`].
pub enum JsonNodeView {
    Null,
    Bool(bool),
    Number(Option<i64>, Seq<char>),
    Text(Seq<char>),
    Array(Seq<Seq<char>>),
    Object(Members),
}

impl View for JsonNode {
    type V = JsonNodeView;

    open spec fn view(&self) -> JsonNodeView {
        match self {
            JsonNode::Null => JsonNodeView::Null,
            JsonNode::Bool(b) => JsonNodeView::Bool(*b),
            JsonNode::Number(integer, text) => JsonNodeView::Number(*integer, text@),
            JsonNode::Text(s) => JsonNodeView::Text(s@),
            JsonNode::Array(items) => JsonNodeView::Array(items.deep_view()),
            JsonNode::Object(members) => JsonNodeView::Object(members.deep_view()),
        }
    }
}

/// The top level of the JSON document that `text` holds, or `None` where
/// `text` is not one JSON document.
pub uninterp spec fn json_node(text: Seq<char>) -> Option<JsonNodeView>;

/// The JSON string literal that stands for `text`, quotes included, or
/// `None` where `text` cannot be written as one.
pub uninterp spec fn json_quoted(text: Seq<char>) -> Option<Seq<char>>;

/// Reads `text` with `serde_json::from_str` into a `serde_json::Value` and
/// hands out its top level. The contract claims that the outcome is a
/// function of the text alone: an error exactly where the text is not one
/// JSON document, and otherwise the node named by [`json_node`]. A number
/// is handed out as what `Number::as_i64` says of it and as the text that it
/// displays; elements and members as `Value`'s own compact text.
#[verifier::external_body]
pub(crate) fn parse_node(text: &str) -> (r: Result<JsonNode, serde_json::Error>)
    ensures
        r matches Ok(node) ==> json_node(text@) == Some(node@),
        r is Err ==> json_node(text@) is None,
{
    Ok(match serde_json::from_str::<serde_json::Value>(text)? {
        serde_json::Value::Null => JsonNode::Null,
        serde_json::Value::Bool(b) => JsonNode::Bool(b),
        serde_json::Value::Number(n) => JsonNode::Number(n.as_i64(), n.to_string()),
        serde_json::Value::String(s) => JsonNode::Text(s),
        serde_json::Value::Array(a) => JsonNode::Array(a.iter().map(|v| v.to_string()).collect()),
        serde_json::Value::Object(m) => JsonNode::Object(
            m.iter().map(|(k, v)| (k.clone(), v.to_string())).collect(),
        ),
    })
}

/// Writes `text` as a JSON string literal with `serde_json::to_string`.
/// The contract claims that the outcome is a function of the text alone:
/// the literal named by [`json_quoted`], or an error exactly where that
/// name gives none.
#[verifier::external_body]
pub(crate) fn quote(text: &str) -> (r: Result<String, serde_json::Error>)
    ensures
        r matches Ok(literal) ==> json_quoted(text@) == Some(literal@),
        r is Err ==> json_quoted(text@) is None,
{
    serde_json::to_string(text)
}

/// Makes a `serde_json::Error` that carries `message`, with
/// `serde::de::Error::custom`. Nothing is claimed of the error.
#[verifier::external_body]
pub(crate) fn shape_error(message: &str) -> serde_json::Error {
    serde::de::Error::custom(message)
}

/// The failure to report for a text that is JSON but not of the shape that
/// was asked for; `what` names the shape.
pub fn malformed(what: &str) -> (e: JupyterApiError)
    ensures
        e is JsonError,
{
    let mut message = String::from_str("malformed ");
    message.append(what);
    JupyterApiError::JsonError(shape_error(message.as_str()))
}

/// The JSON text of the first member of `members` under `key`.
pub open spec fn member_text(members: Members, key: Seq<char>) -> Option<Seq<char>>
    decreases members.len(),
{
    if members.len() == 0 {
        None
    } else if members[0].0 == key {
        Some(members[0].1)
    } else {
        member_text(members.drop_first(), key)
    }
}

/// The string that `raw` holds, where it is the JSON text of a string.
pub open spec fn text_of(raw: Seq<char>) -> Option<Seq<char>> {
    match json_node(raw) {
        Some(JsonNodeView::Text(s)) => Some(s),
        _ => None,
    }
}

/// The integer that `raw` holds, where it is the JSON text of an integer in
/// the range of `i64`.
pub open spec fn integer_of(raw: Seq<char>) -> Option<i64> {
    match json_node(raw) {
        Some(JsonNodeView::Number(Some(i), _)) => Some(i),
        _ => None,
    }
}

/// The members that `raw` holds, where it is the JSON text of an object.
pub open spec fn members_of(raw: Seq<char>) -> Option<Members> {
    match json_node(raw) {
        Some(JsonNodeView::Object(members)) => Some(members),
        _ => None,
    }
}

/// The JSON text of the elements that `raw` holds, where it is the JSON
/// text of an array.
pub open spec fn items_of(raw: Seq<char>) -> Option<Seq<Seq<char>>> {
    match json_node(raw) {
        Some(JsonNodeView::Array(items)) => Some(items),
        _ => None,
    }
}

/// Whether `raw` is the JSON text `null`.
pub open spec fn is_null(raw: Seq<char>) -> bool {
    json_node(raw) == Some(JsonNodeView::Null)
}

/// The string under `key`.
pub open spec fn text_field(members: Members, key: Seq<char>) -> Option<Seq<char>> {
    match member_text(members, key) {
        Some(raw) => text_of(raw),
        None => None,
    }
}

/// The integer under `key`.
pub open spec fn integer_field(members: Members, key: Seq<char>) -> Option<i64> {
    match member_text(members, key) {
        Some(raw) => integer_of(raw),
        None => None,
    }
}

/// The string under `key`, which may be missing or `null`: `Some(None)`
/// then. `None` where something else than a string stands there.
pub open spec fn optional_text_field(
    members: Members,
    key: Seq<char>,
) -> Option<Option<Seq<char>>> {
    match member_text(members, key) {
        None => Some(None),
        Some(raw) => if is_null(raw) {
            Some(None)
        } else {
            match text_of(raw) {
                Some(s) => Some(Some(s)),
                None => None,
            }
        },
    }
}

/// The JSON text under `key`, unless it is missing or `null`.
pub open spec fn optional_field(members: Members, key: Seq<char>) -> Option<Seq<char>> {
    match member_text(members, key) {
        Some(raw) => if is_null(raw) {
            None
        } else {
            Some(raw)
        },
        None => None,
    }
}

/// The members of the object under `key`.
pub open spec fn object_field(members: Members, key: Seq<char>) -> Option<Members> {
    match member_text(members, key) {
        Some(raw) => members_of(raw),
        None => None,
    }
}

/// The JSON text of the elements of the array under `key`.
pub open spec fn array_field(members: Members, key: Seq<char>) -> Option<Seq<Seq<char>>> {
    match member_text(members, key) {
        Some(raw) => items_of(raw),
        None => None,
    }
}

/// The strings that the elements hold, where each is the JSON text of a
/// string.
pub open spec fn texts_of(items: Seq<Seq<char>>) -> Option<Seq<Seq<char>>> {
    if forall|i: int| 0 <= i < items.len() ==> text_of(#[trigger] items[i]) is Some {
        Some(Seq::new(items.len(), |i: int| text_of(items[i])->0))
    } else {
        None
    }
}

/// Finds the first member under `key`.
pub fn find_member<'a>(members: &'a Vec<(String, String)>, key: &str) -> (r: Option<&'a str>)
    ensures
        r is Some <==> member_text(members.deep_view(), key@) is Some,
        r matches Some(raw) ==> member_text(members.deep_view(), key@) == Some(raw@),
{
    let ghost all = members.deep_view();
    let mut i: usize = 0;
    assert(all.subrange(0, all.len() as int) =~= all);
    while i < members.len()
        invariant
            i <= members.len(),
            all == members.deep_view(),
            member_text(all, key@) == member_text(all.subrange(i as int, all.len() as int), key@),
        decreases members.len() - i,
    {
        let ghost rest = all.subrange(i as int, all.len() as int);
        assert(rest[0] == all[i as int]);
        assert(all[i as int] == (members[i as int].0@, members[i as int].1@));
        assert(rest.drop_first() =~= all.subrange(i + 1, all.len() as int));
        if same_text(members[i].0.as_str(), key) {
            return Some(members[i].1.as_str());
        }
        i += 1;
    }
    assert(all.subrange(i as int, all.len() as int).len() == 0);
    None
}

/// Reads `raw` as a string.
pub fn read_text(raw: &str) -> (r: Option<String>)
    ensures
        r is Some <==> text_of(raw@) is Some,
        r matches Some(s) ==> text_of(raw@) == Some(s@),
{
    match parse_node(raw) {
        Ok(JsonNode::Text(s)) => Some(s),
        _ => None,
    }
}

/// Reads `raw` as an integer.
pub fn read_integer(raw: &str) -> (r: Option<i64>)
    ensures
        r == integer_of(raw@),
{
    match parse_node(raw) {
        Ok(JsonNode::Number(Some(i), _)) => Some(i),
        _ => None,
    }
}

/// Reads `raw` as an object.
pub fn read_members(raw: &str) -> (r: Option<Vec<(String, String)>>)
    ensures
        r is Some <==> members_of(raw@) is Some,
        r matches Some(members) ==> members_of(raw@) == Some(members.deep_view()),
{
    match parse_node(raw) {
        Ok(JsonNode::Object(members)) => Some(members),
        _ => None,
    }
}

/// Reads `raw` as an array.
pub fn read_items(raw: &str) -> (r: Option<Vec<String>>)
    ensures
        r is Some <==> items_of(raw@) is Some,
        r matches Some(items) ==> items_of(raw@) == Some(items.deep_view()),
{
    match parse_node(raw) {
        Ok(JsonNode::Array(items)) => Some(items),
        _ => None,
    }
}

/// Whether `raw` is `null`.
pub fn read_null(raw: &str) -> (r: bool)
    ensures
        r == is_null(raw@),
{
    match parse_node(raw) {
        Ok(JsonNode::Null) => true,
        _ => false,
    }
}

/// The string under `key`, or the failure where there is none.
pub fn text_member(members: &Vec<(String, String)>, key: &str) -> (r: Result<
    String,
    JupyterApiError,
>)
    ensures
        r matches Ok(s) ==> text_field(members.deep_view(), key@) == Some(s@),
        r matches Err(e) ==> e is JsonError && text_field(members.deep_view(), key@) is None,
{
    match find_member(members, key) {
        Some(raw) => match read_text(raw) {
            Some(s) => Ok(s),
            None => Err(malformed(key)),
        },
        None => Err(malformed(key)),
    }
}

/// The integer under `key`, or the failure where there is none.
pub fn integer_member(members: &Vec<(String, String)>, key: &str) -> (r: Result<
    i64,
    JupyterApiError,
>)
    ensures
        r matches Ok(i) ==> integer_field(members.deep_view(), key@) == Some(i),
        r matches Err(e) ==> e is JsonError && integer_field(members.deep_view(), key@) is None,
{
    match find_member(members, key) {
        Some(raw) => match read_integer(raw) {
            Some(i) => Ok(i),
            None => Err(malformed(key)),
        },
        None => Err(malformed(key)),
    }
}

/// The string under `key` where one stands there, `None` where the member
/// is missing or `null`, or the failure where something else stands there.
pub fn optional_text_member(members: &Vec<(String, String)>, key: &str) -> (r: Result<
    Option<String>,
    JupyterApiError,
>)
    ensures
        r matches Ok(Some(s)) ==> optional_text_field(members.deep_view(), key@) == Some(
            Some(s@),
        ),
        r matches Ok(None) ==> optional_text_field(members.deep_view(), key@) == Some(
            None::<Seq<char>>,
        ),
        r matches Err(e) ==> e is JsonError && optional_text_field(members.deep_view(), key@)
            is None,
{
    match find_member(members, key) {
        Some(raw) => {
            if read_null(raw) {
                Ok(None)
            } else {
                match read_text(raw) {
                    Some(s) => Ok(Some(s)),
                    None => Err(malformed(key)),
                }
            }
        },
        None => Ok(None),
    }
}

/// The JSON text under `key`, unless the member is missing or `null`.
pub fn optional_member(members: &Vec<(String, String)>, key: &str) -> (r: Option<String>)
    ensures
        r is Some <==> optional_field(members.deep_view(), key@) is Some,
        r matches Some(raw) ==> optional_field(members.deep_view(), key@) == Some(raw@),
{
    match find_member(members, key) {
        Some(raw) => {
            if read_null(raw) {
                None
            } else {
                Some(raw.to_owned())
            }
        },
        None => None,
    }
}

/// The members of the object under `key`, or the failure where there is
/// none.
pub fn object_member(members: &Vec<(String, String)>, key: &str) -> (r: Result<
    Vec<(String, String)>,
    JupyterApiError,
>)
    ensures
        r matches Ok(inner) ==> object_field(members.deep_view(), key@) == Some(
            inner.deep_view(),
        ),
        r matches Err(e) ==> e is JsonError && object_field(members.deep_view(), key@) is None,
{
    match find_member(members, key) {
        Some(raw) => match read_members(raw) {
            Some(inner) => Ok(inner),
            None => Err(malformed(key)),
        },
        None => Err(malformed(key)),
    }
}

/// The JSON text of the elements of the array under `key`, or the failure
/// where there is none.
pub fn array_member(members: &Vec<(String, String)>, key: &str) -> (r: Result<
    Vec<String>,
    JupyterApiError,
>)
    ensures
        r matches Ok(items) ==> array_field(members.deep_view(), key@) == Some(
            items.deep_view(),
        ),
        r matches Err(e) ==> e is JsonError && array_field(members.deep_view(), key@) is None,
{
    match find_member(members, key) {
        Some(raw) => match read_items(raw) {
            Some(items) => Ok(items),
            None => Err(malformed(key)),
        },
        None => Err(malformed(key)),
    }
}

/// The strings that the elements hold, or `None` where one of them is not
/// the JSON text of a string.
pub fn read_texts(items: &Vec<String>) -> (r: Option<Vec<String>>)
    ensures
        r is Some <==> texts_of(items.deep_view()) is Some,
        r matches Some(texts) ==> texts_of(items.deep_view()) == Some(texts.deep_view()),
{
    let mut texts: Vec<String> = Vec::new();
    let mut i: usize = 0;
    while i < items.len()
        invariant
            i <= items.len(),
            texts.len() == i,
            forall|j: int|
                0 <= j < i ==> text_of(#[trigger] items.deep_view()[j]) == Some(texts[j]@),
        decreases items.len() - i,
    {
        assert(items.deep_view()[i as int] == items[i as int]@);
        match read_text(items[i].as_str()) {
            Some(s) => {
                texts.push(s);
            },
            None => {
                return None;
            },
        }
        i += 1;
    }
    assert(texts_of(items.deep_view())->0 =~= texts.deep_view());
    Some(texts)
}

} // verus!
