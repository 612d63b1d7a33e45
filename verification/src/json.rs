//! Reading and writing the JSON text of the TV's WebSocket messages, through
//! `serde_json`.
use vstd::prelude::*;

verus! {

/// `serde_json::Value`, a parsed JSON document held opaquely; `json_tree`
/// names its contents.
#[verifier::external_type_specification]
#[verifier::external_body]
pub struct ExJsonValue(serde_json::Value);

/// The shape of a JSON document: the model in which the contracts read
/// parsed messages. Numbers are not told apart; nothing here reads them.
pub enum JsonTree {
    Null,
    Bool(bool),
    Number,
    Text(Seq<char>),
    Array(Seq<JsonTree>),
    Object(Map<Seq<char>, JsonTree>),
}

/// What `serde_json::from_str::<Value>` makes of the text `text`: the
/// document, or `None` where the text is not JSON.
pub uninterp spec fn json_document(text: Seq<char>) -> Option<JsonTree>;

/// What a `serde_json::Value` holds.
pub uninterp spec fn json_tree(value: serde_json::Value) -> JsonTree;

/// The member `key` of an object; `None` for a missing key or a non-object.
pub open spec fn member(tree: JsonTree, key: Seq<char>) -> Option<JsonTree> {
    match tree {
        JsonTree::Object(m) => if m.contains_key(key) {
            Some(m[key])
        } else {
            None
        },
        _ => None,
    }
}

/// The characters of a JSON string; `None` for any other kind of value.
pub open spec fn string_of(tree: JsonTree) -> Option<Seq<char>> {
    match tree {
        JsonTree::Text(s) => Some(s),
        _ => None,
    }
}

/// The string member `key` of `tree`, if `tree` is an object whose member
/// `key` is a string.
pub open spec fn string_member(tree: JsonTree, key: Seq<char>) -> Option<Seq<char>> {
    match member(tree, key) {
        Some(m) => string_of(m),
        None => None,
    }
}

/// `serde_json::from_str::<serde_json::Value>`: parses `text`, with the
/// error dropped. The contract says that the result is `Some` exactly when
/// `json_document(text)` is, and then holds that document.
#[verifier::external_body]
pub(crate) fn parse_json(text: &str) -> (res: Option<serde_json::Value>)
    ensures
        match res {
            Some(v) => json_document(text@) == Some(json_tree(v)),
            None => json_document(text@) is None,
        },
{
    serde_json::from_str::<serde_json::Value>(text).ok()
}

/// `serde_json::Value::get` with a string key: the member `key` of an
/// object, `None` for a missing key or for any value that is not an object
/// (as its documentation says).
#[verifier::external_body]
pub(crate) fn json_get<'a>(value: &'a serde_json::Value, key: &str) -> (res: Option<
    &'a serde_json::Value,
>)
    ensures
        match res {
            Some(m) => member(json_tree(*value), key@) == Some(json_tree(*m)),
            None => member(json_tree(*value), key@) is None,
        },
{
    value.get(key)
}

/// `serde_json::Value::as_str`: the characters of a JSON string, `None`
/// for every other kind of value.
#[verifier::external_body]
pub(crate) fn json_as_str(value: &serde_json::Value) -> (res: Option<&str>)
    ensures
        match res {
            Some(s) => string_of(json_tree(*value)) == Some(s@),
            None => string_of(json_tree(*value)) is None,
        },
{
    value.as_str()
}

/// `Clone for serde_json::Value`: a copy holding the same document.
#[verifier::external_body]
pub(crate) fn clone_json(value: &serde_json::Value) -> (res: serde_json::Value)
    ensures
        json_tree(res) == json_tree(*value),
{
    value.clone()
}

/// Reads the string member `key` of the JSON object in `text`.
pub fn string_member_of(text: &str, key: &str) -> (res: Option<String>)
    ensures
        match json_document(text@) {
            Some(doc) => match res {
                Some(s) => string_member(doc, key@) == Some(s@),
                None => string_member(doc, key@) is None,
            },
            None => res is None,
        },
{
    let doc = match parse_json(text) {
        Some(d) => d,
        None => return None,
    };
    let m = match json_get(&doc, key) {
        Some(m) => m,
        None => return None,
    };
    match json_as_str(m) {
        Some(s) => Some(crate::text::owned(s)),
        None => None,
    }
}

/// Whether `s` needs no escaping inside a JSON string: it holds no `"`,
/// no backslash and no control character below U+0020.
pub open spec fn plain_json_text(s: Seq<char>) -> bool {
    forall|i: int|
        0 <= i < s.len() ==> #[trigger] (s[i] as u32) >= 0x20 && s[i] != '"' && s[i] != '\\'
}

/// What `serde_json::to_string` writes for the string `s`: a JSON string
/// literal.
pub uninterp spec fn json_quoted(s: Seq<char>) -> Seq<char>;

/// `serde_json::to_string` on a string: the JSON string literal of `s`.
/// The contract names the result and states one fact of serde_json's
/// escaping table: a string with no `"`, backslash or control character is
/// written between two quotes as it is. It does not state the escapes
/// themselves. serde_json documents failure only for a `Serialize` impl that
/// fails or a map with non-string keys, neither of which a string has, so the
/// error arm is never taken.
#[verifier::external_body]
pub(crate) fn quote_json(s: &str) -> (res: String)
    ensures
        res@ == json_quoted(s@),
        plain_json_text(s@) ==> res@ == seq!['"'] + s@ + seq!['"'],
{
    match serde_json::to_string(s) {
        Ok(q) => q,
        Err(_) => String::new(),
    }
}

} // verus!
