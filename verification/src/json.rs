//! A JSON document as plain values, and the defensive field readers the
//! normalisers are built from.

use vstd::prelude::*;
use vstd::string::*;
use crate::error::SearchError;

verus! {

/// A JSON number: an integer where it fits one, else the literal of the real.
/// A well-formed number holds an integer from 0 on as `Unsigned`, so that
/// `Negative` holds integers below 0 only.
#[derive(Clone, Debug)]
pub enum JsonNumber {
    /// A non-negative integer.
    Unsigned(u64),
    /// A negative integer; below 0 in a well-formed number.
    Negative(i64),
    /// Any other number, as its decimal literal.
    Real(String),
}

/// A JSON value. An object keeps its members as a list of pairs.
#[derive(Debug)]
pub enum Json {
    Null,
    Bool(bool),
    Number(JsonNumber),
    Text(String),
    Array(Vec<Json>),
    Object(Vec<(String, Json)>),
}

/// The value of the first pair whose key is `key`.
pub open spec fn lookup(entries: Seq<(String, Json)>, key: Seq<char>) -> Option<Json>
    decreases entries.len(),
{
    if entries.len() == 0 {
        None
    } else if entries[0].0@ == key {
        Some(entries[0].1)
    } else {
        lookup(entries.drop_first(), key)
    }
}

/// `lookup` finds the value at `at` where the key stands there and nowhere before.
pub proof fn lemma_lookup_finds(entries: Seq<(String, Json)>, key: Seq<char>, at: int)
    requires
        0 <= at < entries.len(),
        entries[at].0@ == key,
        forall|before: int| 0 <= before < at ==> (#[trigger] entries[before]).0@ != key,
    ensures
        lookup(entries, key) == Some(entries[at].1),
    decreases at,
{
    if at > 0 {
        let rest = entries.drop_first();
        assert(rest[at - 1] == entries[at]);
        assert forall|before: int| 0 <= before < at - 1 implies (#[trigger] rest[before]).0@ != key by {
            assert(rest[before] == entries[before + 1]);
        }
        lemma_lookup_finds(rest, key, at - 1);
    }
}

/// `lookup` finds nothing where no pair has the key.
pub proof fn lemma_lookup_misses(entries: Seq<(String, Json)>, key: Seq<char>)
    requires
        forall|at: int| 0 <= at < entries.len() ==> (#[trigger] entries[at]).0@ != key,
    ensures
        lookup(entries, key) is None,
    decreases entries.len(),
{
    if entries.len() > 0 {
        let rest = entries.drop_first();
        assert forall|at: int| 0 <= at < rest.len() implies (#[trigger] rest[at]).0@ != key by {
            assert(rest[at] == entries[at + 1]);
        }
        lemma_lookup_misses(rest, key);
    }
}

/// `serde_json::Value`, as it comes from the parser.
#[verifier::external_type_specification]
#[verifier::external_body]
pub struct ExValue(serde_json::Value);

/// What a `serde_json::Value` holds, written as a value of this library.
pub uninterp spec fn value_json(value: serde_json::Value) -> Json;

/// The document that a text denotes as JSON, or `None` where it denotes none.
pub uninterp spec fn json_document(text: Seq<char>) -> Option<Json>;

/// Calls `serde_json::from_str` for a `serde_json::Value`. The parser reads the
/// whole text deterministically: the value it returns is the document of the
/// text, and it returns an error exactly where the text has no document.
#[verifier::external_body]
fn read_value(text: &str) -> (value: Option<serde_json::Value>)
    ensures
        match value {
            Some(v) => json_document(text@) == Some(value_json(v)),
            None => json_document(text@) is None,
        },
{
    serde_json::from_str::<serde_json::Value>(text).ok()
}

/// Converts a `serde_json::Value` variant by variant: `Null`, `Bool`, `String`,
/// `Array` and `Object` keep their payload; a `Number` becomes what
/// `Number::as_u64`, `Number::as_i64` or its `Display` form gives, in that order.
/// `serde_json` keeps an integer from 0 on as an unsigned number, so an
/// integer for which `as_u64` gives nothing is below 0.
#[verifier::external_body]
fn json_of_value(value: serde_json::Value) -> (json: Json)
    ensures
        json == value_json(value),
        json.wf(),
{
    match value {
        serde_json::Value::Null => Json::Null,
        serde_json::Value::Bool(flag) => Json::Bool(flag),
        serde_json::Value::Number(n) => Json::Number(match (n.as_u64(), n.as_i64()) {
            (Some(u), _) => JsonNumber::Unsigned(u),
            (None, Some(i)) => JsonNumber::Negative(i),
            (None, None) => JsonNumber::Real(n.to_string()),
        }),
        serde_json::Value::String(text) => Json::Text(text),
        serde_json::Value::Array(items) => Json::Array(items.into_iter().map(json_of_value).collect()),
        serde_json::Value::Object(map) => Json::Object(map.into_iter().map(|(k, v)| (k, json_of_value(v))).collect()),
    }
}

impl JsonNumber {
    /// Whether the number is well formed: a `Negative` is below 0.
    pub open spec fn wf(self) -> bool {
        match self {
            JsonNumber::Negative(n) => n < 0,
            _ => true,
        }
    }

    /// The number as a `u64`: only a non-negative integer has one.
    pub open spec fn unsigned(self) -> Option<u64> {
        match self {
            JsonNumber::Unsigned(n) => Some(n),
            _ => None,
        }
    }

    /// The number as an `i64`: an integer that fits has one.
    pub open spec fn signed(self) -> Option<i64> {
        match self {
            JsonNumber::Unsigned(n) => if n <= i64::MAX {
                Some(n as i64)
            } else {
                None
            },
            JsonNumber::Negative(n) => Some(n),
            JsonNumber::Real(_) => None,
        }
    }
}

impl Json {
    /// Whether every number in the value is well formed.
    pub open spec fn wf(self) -> bool
        decreases self,
    {
        match self {
            Json::Number(n) => n.wf(),
            Json::Array(items) => forall|i: int| 0 <= i < items@.len() ==> (#[trigger] items@[i]).wf(),
            Json::Object(entries) => forall|i: int| 0 <= i < entries@.len() ==> (#[trigger] entries@[i]).1.wf(),
            _ => true,
        }
    }

    /// The member `key` of an object; nothing for a missing key or another kind of value.
    pub open spec fn member(self, key: Seq<char>) -> Option<Json> {
        match self {
            Json::Object(entries) => lookup(entries@, key),
            _ => None,
        }
    }

    /// The characters of a string value.
    pub open spec fn text(self) -> Option<Seq<char>> {
        match self {
            Json::Text(s) => Some(s@),
            _ => None,
        }
    }

    /// The elements of an array value.
    pub open spec fn items(self) -> Option<Seq<Json>> {
        match self {
            Json::Array(items) => Some(items@),
            _ => None,
        }
    }

    /// The value as a `u64`.
    pub open spec fn unsigned(self) -> Option<u64> {
        match self {
            Json::Number(n) => n.unsigned(),
            _ => None,
        }
    }

    /// The value as an `i64`.
    pub open spec fn signed(self) -> Option<i64> {
        match self {
            Json::Number(n) => n.signed(),
            _ => None,
        }
    }

    /// The text of member `key`, or the empty text where the member is missing
    /// or is no string.
    pub open spec fn text_or_empty(self, key: Seq<char>) -> Seq<char> {
        match self.member(key) {
            Some(Json::Text(s)) => s@,
            _ => Seq::<char>::empty(),
        }
    }

    /// The text of member `key`, where it is a string.
    pub open spec fn optional_text(self, key: Seq<char>) -> Option<Seq<char>> {
        match self.member(key) {
            Some(value) => value.text(),
            None => None,
        }
    }

    /// Member `key` as a `u64`, or 0 where it is missing or no such number.
    pub open spec fn unsigned_or_zero(self, key: Seq<char>) -> u64 {
        match self.member(key) {
            Some(value) => match value.unsigned() {
                Some(n) => n,
                None => 0,
            },
            None => 0,
        }
    }

    /// Member `key` as an `i64`, where it is such a number.
    pub open spec fn optional_signed(self, key: Seq<char>) -> Option<i64> {
        match self.member(key) {
            Some(value) => value.signed(),
            None => None,
        }
    }

    /// Parses a JSON text into a well-formed value. A text that is no JSON
    /// document fails with `SearchError::Parse`, which carries the text.
    pub fn parse(text: &str) -> (parsed: Result<Json, SearchError>)
        ensures
            match parsed {
                Ok(json) => json_document(text@) == Some(json) && json.wf(),
                Err(error) => json_document(text@) is None && error.is_parse_failure(text@),
            },
    {
        match read_value(text) {
            Some(value) => Ok(json_of_value(value)),
            None => Err(SearchError::Parse { body: String::from_str(text) }),
        }
    }

    /// Looks up member `key` of an object.
    pub fn get(&self, key: &str) -> (found: Option<&Json>)
        ensures
            match found {
                Some(value) => self.member(key@) == Some(*value),
                None => self.member(key@) is None,
            },
    {
        match self {
            Json::Object(entries) => {
                let wanted = String::from_str(key);
                let mut i: usize = 0;
                assert(entries@.subrange(0, entries.len() as int) =~= entries@);
                while i < entries.len()
                    invariant
                        i <= entries.len(),
                        wanted@ == key@,
                        self.member(key@) == lookup(entries@, key@),
                        lookup(entries@, key@) == lookup(entries@.subrange(i as int, entries.len() as int), key@),
                    decreases entries.len() - i,
                {
                    let ghost rest = entries@.subrange(i as int, entries.len() as int);
                    assert(rest[0] == entries@[i as int]);
                    assert(rest.drop_first() =~= entries@.subrange(i + 1, entries.len() as int));
                    if entries[i].0 == wanted {
                        return Some(&entries[i].1);
                    }
                    i += 1;
                }
                None
            },
            _ => None,
        }
    }

    /// The string value, if this is one.
    pub fn as_str(&self) -> (text: Option<&str>)
        ensures
            match text {
                Some(s) => self.text() == Some(s@),
                None => self.text() is None,
            },
    {
        match self {
            Json::Text(s) => Some(s.as_str()),
            _ => None,
        }
    }

    /// The elements, if this is an array.
    pub fn as_array(&self) -> (items: Option<&Vec<Json>>)
        ensures
            match items {
                Some(list) => self.items() == Some(list@),
                None => self.items() is None,
            },
    {
        match self {
            Json::Array(items) => Some(items),
            _ => None,
        }
    }

    /// The value as a `u64`, if it is a non-negative integer.
    pub fn as_u64(&self) -> (n: Option<u64>)
        ensures
            n == self.unsigned(),
    {
        match self {
            Json::Number(JsonNumber::Unsigned(n)) => Some(*n),
            _ => None,
        }
    }

    /// The value as an `i64`, if it is an integer that fits.
    pub fn as_i64(&self) -> (n: Option<i64>)
        ensures
            n == self.signed(),
    {
        match self {
            Json::Number(JsonNumber::Unsigned(n)) => if *n <= 0x7fff_ffff_ffff_ffff {
                Some(*n as i64)
            } else {
                None
            },
            Json::Number(JsonNumber::Negative(n)) => Some(*n),
            _ => None,
        }
    }

    /// Reads a text field; a missing or wrong-typed field reads as empty.
    pub fn str_field(&self, key: &str) -> (text: String)
        ensures
            text@ == self.text_or_empty(key@),
    {
        match self.get(key) {
            Some(Json::Text(s)) => s.clone(),
            _ => String::new(),
        }
    }

    /// Reads a text field that may be absent; a wrong-typed field reads as absent.
    pub fn optional_str_field(&self, key: &str) -> (text: Option<String>)
        ensures
            match text {
                Some(s) => self.optional_text(key@) == Some(s@),
                None => self.optional_text(key@) is None,
            },
    {
        match self.get(key) {
            Some(Json::Text(s)) => Some(s.clone()),
            _ => None,
        }
    }

    /// Reads a count field; a missing or wrong-typed field reads as 0.
    pub fn u64_field(&self, key: &str) -> (n: u64)
        ensures
            n == self.unsigned_or_zero(key@),
    {
        match self.get(key) {
            Some(value) => match value.as_u64() {
                Some(n) => n,
                None => 0,
            },
            None => 0,
        }
    }

    /// Reads a signed integer field that may be absent or wrong-typed.
    pub fn i64_field(&self, key: &str) -> (n: Option<i64>)
        ensures
            n == self.optional_signed(key@),
    {
        match self.get(key) {
            Some(value) => value.as_i64(),
            None => None,
        }
    }
}

} // verus!
