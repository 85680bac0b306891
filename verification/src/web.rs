//! Reading the item a character found, from the server's JSON reply.
use vstd::prelude::*;
use crate::text::concat;

verus! {

/// A JSON document: what the server's reply holds once it is parsed.
/// Numbers are kept as their text, since nothing here computes with them.
pub enum Json {
    Null,
    Bool(bool),
    Number(String),
    Str(String),
    Array(Vec<Json>),
    Object(Vec<(String, Json)>),
}

/// The value of the first member named `key` among `members`.
pub open spec fn member(members: Seq<(String, Json)>, key: Seq<char>) -> Option<Json>
    decreases members.len(),
{
    if members.len() == 0 {
        None
    } else if members[0].0@ == key {
        Some(members[0].1)
    } else {
        member(members.drop_first(), key)
    }
}

/// The member `key` of an object; nothing for anything else.
pub open spec fn json_get(v: Json, key: Seq<char>) -> Option<Json> {
    match v {
        Json::Object(members) => member(members@, key),
        _ => None,
    }
}

/// Element `i` of an array; nothing for anything else, or past its end.
pub open spec fn json_at(v: Json, i: int) -> Option<Json> {
    match v {
        Json::Array(items) => if 0 <= i < items@.len() {
            Some(items@[i])
        } else {
            None
        },
        _ => None,
    }
}

/// The text of a string; nothing for anything else.
pub open spec fn json_str(v: Json) -> Option<Seq<char>> {
    match v {
        Json::Str(s) => Some(s@),
        _ => None,
    }
}

/// The second item of the character: the text at `character.items[1]`,
/// when there is one.
pub open spec fn found_item_of(v: Json) -> Option<Seq<char>> {
    match json_get(v, "character"@) {
        Some(c) => match json_get(c, "items"@) {
            Some(items) => match json_at(items, 1) {
                Some(item) => json_str(item),
                None => None,
            },
            None => None,
        },
        None => None,
    }
}

/// The found item is the second element of the character's items, whatever
/// the number of items: when the reply has a member `character` holding a
/// member `items` that is an array of at least two elements, the found item
/// is the element at index 1 if that is a string, and nothing otherwise.
pub proof fn lemma_found_item_is_second(v: Json, c: Json, items: Vec<Json>)
    requires
        json_get(v, "character"@) == Some(c),
        json_get(c, "items"@) == Some(Json::Array(items)),
        items@.len() >= 2,
    ensures
        found_item_of(v) == json_str(items@[1]),
        items@[1] matches Json::Str(s) ==> found_item_of(v) == Some(s@),
        !(items@[1] is Str) ==> found_item_of(v) is None,
{
}

/// An item is found only in that shape: a reply without `character`, a
/// character without `items`, items that are no array, or an array of fewer
/// than two elements give nothing; a found item is the string at index 1.
pub proof fn lemma_found_item_needs_two_items(v: Json)
    ensures
        found_item_of(v) matches Some(s) ==> {
            &&& json_get(v, "character"@) matches Some(c)
            &&& json_get(c, "items"@) matches Some(Json::Array(items))
            &&& items@.len() >= 2
            &&& items@[1] matches Json::Str(t)
            &&& t@ == s
        },
{
}

/// Whether two texts are the same.
fn str_eq(a: &str, b: &str) -> (r: bool)
    ensures
        r == (a@ == b@),
{
    let n = a.unicode_len();
    if n != b.unicode_len() {
        return false;
    }
    let mut i: usize = 0;
    while i < n
        invariant
            n == a@.len() == b@.len(),
            i <= n,
            forall|j: int| 0 <= j < i ==> a@[j] == b@[j],
        decreases n - i,
    {
        if a.get_char(i) != b.get_char(i) {
            return false;
        }
        i = i + 1;
    }
    assert(a@ =~= b@);
    true
}

impl Json {
    /// The member `key` of an object.
    pub fn get(&self, key: &str) -> (r: Option<&Json>)
        ensures
            match r {
                Some(x) => json_get(*self, key@) == Some(*x),
                None => json_get(*self, key@) is None,
            },
    {
        match self {
            Json::Object(members) => {
                let mut i: usize = 0;
                assert(members@.skip(0) =~= members@);
                while i < members.len()
                    invariant
                        i <= members@.len(),
                        json_get(*self, key@) == member(members@, key@),
                        member(members@, key@) == member(members@.skip(i as int), key@),
                    decreases members.len() - i,
                {
                    assert(members@.skip(i as int).drop_first() =~= members@.skip(i + 1));
                    assert(members@.skip(i as int)[0] == members@[i as int]);
                    if str_eq(members[i].0.as_str(), key) {
                        return Some(&members[i].1);
                    }
                    i = i + 1;
                }
                assert(members@.skip(i as int).len() == 0);
                None
            },
            _ => None,
        }
    }

    /// Element `i` of an array.
    pub fn at(&self, i: usize) -> (r: Option<&Json>)
        ensures
            match r {
                Some(x) => json_at(*self, i as int) == Some(*x),
                None => json_at(*self, i as int) is None,
            },
    {
        match self {
            Json::Array(items) => if i < items.len() {
                Some(&items[i])
            } else {
                None
            },
            _ => None,
        }
    }

    /// The text of a string.
    pub fn as_str(&self) -> (r: Option<&str>)
        ensures
            match r {
                Some(s) => json_str(*self) == Some(s@),
                None => json_str(*self) is None,
            },
    {
        match self {
            Json::Str(s) => Some(s.as_str()),
            _ => None,
        }
    }
}

/// The text at `character.items[1]` of a reply, if it is a string.
pub fn found_item(v: &Json) -> (r: Option<&str>)
    ensures
        match r {
            Some(s) => found_item_of(*v) == Some(s@),
            None => found_item_of(*v) is None,
        },
{
    match v.get("character") {
        Some(c) => match c.get("items") {
            Some(items) => match items.at(1) {
                Some(item) => item.as_str(),
                None => None,
            },
            None => None,
        },
        None => None,
    }
}

/// The message for a found item.
pub open spec fn found_item_message(item: Seq<char>) -> Seq<char> {
    "Hello you found an item "@ + item + "!"@
}

/// The message for a request that got no reply.
pub open spec fn failed_request_message(error: Seq<char>) -> Seq<char> {
    "Cant connect to server bro! please report this error: "@ + error
}

/// The JSON values of `serde_json`, carried through without being opened.
#[verifier::external_type_specification]
#[verifier::external_body]
pub struct ExJsonValue(serde_json::Value);

/// The document that `serde_json` reads from `bytes`, in the form of `Json`,
/// or nothing when the bytes are not one JSON document.
pub uninterp spec fn json_of_bytes(bytes: Seq<u8>) -> Option<Json>;

/// Parses `bytes` with `serde_json::from_slice` into a `serde_json::Value`
/// and hands it over as a `Json`, or `None` when `serde_json` refuses the
/// bytes. The contract claims only that the result depends on the bytes
/// alone: what document a given text is, and which texts are refused, is
/// named (`json_of_bytes`) and left to `serde_json`.
#[verifier::external_body]
fn parse_json(bytes: &[u8]) -> (r: Option<Json>)
    ensures
        r == json_of_bytes(bytes@),
{
    serde_json::from_slice::<serde_json::Value>(bytes).ok().map(json_from_value)
}

/// A `serde_json::Value` as a `Json`, variant for variant; a number keeps its
/// text as `serde_json` prints it. It is the conversion step of `parse_json`.
#[verifier::external_body]
fn json_from_value(v: serde_json::Value) -> Json {
    match v {
        serde_json::Value::Null => Json::Null,
        serde_json::Value::Bool(b) => Json::Bool(b),
        serde_json::Value::Number(n) => Json::Number(n.to_string()),
        serde_json::Value::String(s) => Json::Str(s),
        serde_json::Value::Array(a) => Json::Array(a.into_iter().map(json_from_value).collect()),
        serde_json::Value::Object(m) => Json::Object(
            m.into_iter().map(|(k, x)| (k, json_from_value(x))).collect(),
        ),
    }
}

/// What the game says about a parsed reply document: the message for the
/// item at `character.items[1]` when there is one; `None` when the reply is
/// not a JSON document or holds no such item.
pub fn found_item_reply(doc: Option<Json>) -> (r: Option<String>)
    ensures
        match doc {
            Some(v) => match found_item_of(v) {
                Some(item) => r matches Some(m) && m@ == found_item_message(item),
                None => r is None,
            },
            None => r is None,
        },
{
    match doc {
        Some(v) => match found_item(&v) {
            Some(item) => {
                let head = concat("Hello you found an item ", item);
                Some(concat(head.as_str(), "!"))
            },
            None => None,
        },
        None => None,
    }
}

/// What the game says about the reply to the item request: for a body, the
/// message for the item at `character.items[1]` of the JSON document it
/// holds (`None` when it is no JSON document or holds no such item); for a
/// failed request, the message with its error.
pub fn pg(reply: Result<Vec<u8>, String>) -> (r: Option<String>)
    ensures
        match reply {
            Ok(b) => match json_of_bytes(b@) {
                Some(v) => match found_item_of(v) {
                    Some(item) => r matches Some(m) && m@ == found_item_message(item),
                    None => r is None,
                },
                None => r is None,
            },
            Err(e) => r matches Some(m) && m@ == failed_request_message(e@),
        },
{
    match reply {
        Ok(bytes) => found_item_reply(parse_json(bytes.as_slice())),
        Err(e) => Some(concat("Cant connect to server bro! please report this error: ", e.as_str())),
    }
}

} // verus!
