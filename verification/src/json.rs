//! What the rules of this crate read of a JSON document: what its top level is, the
//! members of an object, and of each member the text or the truth value it holds.
use vstd::prelude::*;

use serde_json::Value;

use crate::text::same_text;

verus! {

/// The value of a member: its kind, with the contents of a text or a truth value.
pub enum JsonValue {
    Null,
    Bool(bool),
    Number,
    Text(String),
    Array,
    Object,
}

/// The value of a member, its text as a sequence of characters.
pub enum JsonView {
    Null,
    Bool(bool),
    Number,
    Text(Seq<char>),
    Array,
    Object,
}

impl View for JsonValue {
    type V = JsonView;

    open spec fn view(&self) -> JsonView {
        match *self {
            JsonValue::Null => JsonView::Null,
            JsonValue::Bool(b) => JsonView::Bool(b),
            JsonValue::Number => JsonView::Number,
            JsonValue::Text(s) => JsonView::Text(s@),
            JsonValue::Array => JsonView::Array,
            JsonValue::Object => JsonView::Object,
        }
    }
}

/// The members of an object, by their keys.
pub type Members = Map<Seq<char>, JsonView>;

/// The text under `key`, where that member is there and is a text.
pub open spec fn text_at(members: Members, key: Seq<char>) -> Option<Seq<char>> {
    if members.dom().contains(key) {
        match members[key] {
            JsonView::Text(s) => Some(s),
            _ => None,
        }
    } else {
        None
    }
}

/// The truth value under `key`, where that member is there and is a truth value.
pub open spec fn bool_at(members: Members, key: Seq<char>) -> Option<bool> {
    if members.dom().contains(key) {
        match members[key] {
            JsonView::Bool(b) => Some(b),
            _ => None,
        }
    } else {
        None
    }
}

/// The characters of an optional text.
pub open spec fn opt_text(s: Option<String>) -> Option<Seq<char>> {
    match s {
        Some(s) => Some(s@),
        None => None,
    }
}

/// The members in a list of keys and values; of a repeated key the last value counts.
pub open spec fn members_in(entries: Seq<(String, JsonValue)>) -> Members
    decreases entries.len(),
{
    if entries.len() == 0 {
        Map::empty()
    } else {
        members_in(entries.drop_last()).insert(entries.last().0@, entries.last().1@)
    }
}

/// A JSON document, by what its top level is; of an object, the members.
pub enum JsonDocument {
    Null,
    Bool,
    Number,
    Text,
    Array,
    Object(Vec<(String, JsonValue)>),
}

/// A JSON document, the members of an object by their keys.
pub enum DocumentView {
    Null,
    Bool,
    Number,
    Text,
    Array,
    Object(Members),
}

impl View for JsonDocument {
    type V = DocumentView;

    open spec fn view(&self) -> DocumentView {
        match *self {
            JsonDocument::Null => DocumentView::Null,
            JsonDocument::Bool => DocumentView::Bool,
            JsonDocument::Number => DocumentView::Number,
            JsonDocument::Text => DocumentView::Text,
            JsonDocument::Array => DocumentView::Array,
            JsonDocument::Object(entries) => DocumentView::Object(members_in(entries@)),
        }
    }
}

/// The view of an optional document.
pub open spec fn opt_document(document: Option<JsonDocument>) -> Option<DocumentView> {
    match document {
        Some(d) => Some(d@),
        None => None,
    }
}

/// The value of the member with this key, if there is one.
fn member<'a>(entries: &'a Vec<(String, JsonValue)>, key: &str) -> (value: Option<&'a JsonValue>)
    ensures
        value is Some <==> members_in(entries@).dom().contains(key@),
        value matches Some(v) ==> v@ == members_in(entries@)[key@],
{
    let mut left: usize = entries.len();
    assert(entries@.take(left as int) =~= entries@);
    while left > 0
        invariant
            left <= entries.len(),
            members_in(entries@).dom().contains(key@) == members_in(
                entries@.take(left as int),
            ).dom().contains(key@),
            members_in(entries@).dom().contains(key@) ==> members_in(entries@)[key@] == members_in(
                entries@.take(left as int),
            )[key@],
        decreases left,
    {
        let ghost head = entries@.take(left as int);
        assert(head.drop_last() =~= entries@.take(left - 1));
        assert(head.last() == entries@[left - 1]);
        left -= 1;
        let entry = &entries[left];
        if same_text(entry.0.as_str(), key) {
            return Some(&entry.1);
        }
    }
    None
}

/// The text under `key`, where that member is there and is a text.
pub fn member_text(entries: &Vec<(String, JsonValue)>, key: &str) -> (s: Option<String>)
    ensures
        opt_text(s) == text_at(members_in(entries@), key@),
{
    match member(entries, key) {
        Some(JsonValue::Text(s)) => Some(s.clone()),
        _ => None,
    }
}

/// The truth value under `key`, where that member is there and is a truth value.
pub fn member_bool(entries: &Vec<(String, JsonValue)>, key: &str) -> (b: Option<bool>)
    ensures
        b == bool_at(members_in(entries@), key@),
{
    match member(entries, key) {
        Some(JsonValue::Bool(b)) => Some(*b),
        _ => None,
    }
}

/// `value` is the last that the entries give for `key`.
pub open spec fn holds(
    entries: Seq<(String, JsonValue)>,
    key: Seq<char>,
    value: JsonValue,
) -> bool {
    exists|i: int|
        0 <= i < entries.len() && (#[trigger] entries[i]).0@ == key && entries[i].1 == value
            && forall|j: int| i < j < entries.len() ==> (#[trigger] entries[j]).0@ != key
}

/// The last that the entries give for `key` is a text.
pub open spec fn holds_some_text(entries: Seq<(String, JsonValue)>, key: Seq<char>) -> bool {
    exists|t: String| #[trigger] holds(entries, key, JsonValue::Text(t))
}

/// A text is read under a key exactly where the last entry with that key holds one, and it
/// is that text.
pub proof fn law_text_is_that_of_the_last_entry(
    entries: Vec<(String, JsonValue)>,
    key: &str,
    s: Option<String>,
)
    requires
        call_ensures(member_text, (&entries, key), s),
    ensures
        s is Some <==> holds_some_text(entries@, key@),
        forall|t: String|
            #[trigger] holds(entries@, key@, JsonValue::Text(t)) ==> (s matches Some(x) && x@ == t@),
{
    lemma_members_hold(entries@, key@);
}

/// A truth value is read under a key exactly where the last entry with that key holds one,
/// and it is that truth value.
pub proof fn law_truth_value_is_that_of_the_last_entry(
    entries: Vec<(String, JsonValue)>,
    key: &str,
    b: Option<bool>,
)
    requires
        call_ensures(member_bool, (&entries, key), b),
    ensures
        forall|v: bool| b == Some(v) <==> #[trigger] holds(entries@, key@, JsonValue::Bool(v)),
{
    lemma_members_hold(entries@, key@);
}

/// The members are what the entries give last for each key.
pub proof fn lemma_members_hold(entries: Seq<(String, JsonValue)>, key: Seq<char>)
    ensures
        members_in(entries).dom().contains(key) ==> exists|value: JsonValue|
            #[trigger] holds(entries, key, value) && value@ == members_in(entries)[key],
        forall|value: JsonValue|
            #[trigger] holds(entries, key, value) ==> members_in(entries).dom().contains(key)
                && value@ == members_in(entries)[key],
        forall|v: JsonValue, w: JsonValue|
            #[trigger] holds(entries, key, v) && #[trigger] holds(entries, key, w) ==> v == w,
    decreases entries.len(),
{
    if entries.len() > 0 {
        let head = entries.drop_last();
        let last = entries.len() - 1;
        lemma_members_hold(head, key);
        if entries.last().0@ == key {
            let value = entries.last().1;
            assert(entries[last].0@ == key && entries[last].1 == value);
            assert(holds(entries, key, value));
            assert forall|v: JsonValue| #[trigger] holds(entries, key, v) implies v == value by {
                let i: int = choose|i: int|
                    0 <= i < entries.len() && (#[trigger] entries[i]).0@ == key && entries[i].1 == v
                        && forall|j: int|
                        i < j < entries.len() ==> (#[trigger] entries[j]).0@ != key;
                assert(!(i < last) || entries[last].0@ != key);
            }
        } else {
            assert forall|v: JsonValue| #[trigger]
                holds(entries, key, v) <==> holds(head, key, v) by {
                if holds(entries, key, v) {
                    let i: int = choose|i: int|
                        0 <= i < entries.len() && (#[trigger] entries[i]).0@ == key
                            && entries[i].1 == v && forall|j: int|
                            i < j < entries.len() ==> (#[trigger] entries[j]).0@ != key;
                    assert(head[i] == entries[i]);
                }
                if holds(head, key, v) {
                    let i: int = choose|i: int|
                        0 <= i < head.len() && (#[trigger] head[i]).0@ == key && head[i].1 == v
                            && forall|j: int|
                            i < j < head.len() ==> (#[trigger] head[j]).0@ != key;
                    assert(head[i] == entries[i]);
                    assert forall|j: int| i < j < entries.len() implies (
                    #[trigger] entries[j]).0@ != key by {
                        if j < last {
                            assert(head[j] == entries[j]);
                        }
                    }
                }
            }
            if members_in(head).dom().contains(key) {
                let v: JsonValue = choose|v: JsonValue| #[trigger]
                    holds(head, key, v) && v@ == members_in(head)[key];
                assert(holds(entries, key, v));
            }
        }
    }
}

/// The document that `serde_json::from_str::<serde_json::Value>` reads in a text; `None`
/// where it reports an error.
pub uninterp spec fn json_of_text(text: Seq<char>) -> Option<DocumentView>;

/// The document that `serde_json::from_slice::<serde_json::Value>` reads in a byte
/// string; `None` where it reports an error.
pub uninterp spec fn json_of_bytes(bytes: Seq<u8>) -> Option<DocumentView>;

/// Calls `serde_json::from_str` for a `serde_json::Value` and moves what it holds into a
/// document, the entries of an object into a list. Trusted: what comes back depends on
/// the text alone.
#[verifier::external_body]
pub(crate) fn parse_text(text: &str) -> (document: Option<JsonDocument>)
    ensures
        opt_document(document) == json_of_text(text@),
{
    Some(match serde_json::from_str::<Value>(text).ok()? {
        Value::Null => JsonDocument::Null,
        Value::Bool(_) => JsonDocument::Bool,
        Value::Number(_) => JsonDocument::Number,
        Value::String(_) => JsonDocument::Text,
        Value::Array(_) => JsonDocument::Array,
        Value::Object(map) => JsonDocument::Object(map.into_iter().map(|(k, v)| (k, match v {
            Value::Null => JsonValue::Null,
            Value::Bool(b) => JsonValue::Bool(b),
            Value::Number(_) => JsonValue::Number,
            Value::String(s) => JsonValue::Text(s),
            Value::Array(_) => JsonValue::Array,
            Value::Object(_) => JsonValue::Object,
        })).collect()),
    })
}

/// Calls `serde_json::from_slice` for a `serde_json::Value` and moves what it holds into a
/// document, the entries of an object into a list. Trusted: what comes back depends on
/// the bytes alone.
#[verifier::external_body]
pub(crate) fn parse_bytes(bytes: &[u8]) -> (document: Option<JsonDocument>)
    ensures
        opt_document(document) == json_of_bytes(bytes@),
{
    Some(match serde_json::from_slice::<Value>(bytes).ok()? {
        Value::Null => JsonDocument::Null,
        Value::Bool(_) => JsonDocument::Bool,
        Value::Number(_) => JsonDocument::Number,
        Value::String(_) => JsonDocument::Text,
        Value::Array(_) => JsonDocument::Array,
        Value::Object(map) => JsonDocument::Object(map.into_iter().map(|(k, v)| (k, match v {
            Value::Null => JsonValue::Null,
            Value::Bool(b) => JsonValue::Bool(b),
            Value::Number(_) => JsonValue::Number,
            Value::String(s) => JsonValue::Text(s),
            Value::Array(_) => JsonValue::Array,
            Value::Object(_) => JsonValue::Object,
        })).collect()),
    })
}

} // verus!
