//! JSON documents as plain data.
//!
//! Reading and writing JSON text is `serde_json`'s work; this module holds
//! what it reads as a tree of plain values, and proves the lookups that the
//! command codec makes in such a tree.

use vstd::prelude::*;
use vstd::string::*;
use crate::text::str_eq;

verus! {

/// A JSON document.
#[derive(Debug, PartialEq, Eq)]
pub enum Json {
    Null,
    Bool(bool),
    /// A number: its value where it is an integer that `serde_json` holds
    /// exactly (from `i64::MIN` to `u64::MAX`), nothing for any other number.
    Number(Option<i128>),
    Text(String),
    Array(Vec<Json>),
    /// The members of an object, each a name and a document.
    Object(Vec<(String, Json)>),
}

/// The mathematical value of a [`Json`] document.
pub enum JsonValue {
    Null,
    Bool(bool),
    Number(Option<int>),
    Text(Seq<char>),
    Array(Seq<JsonValue>),
    Object(Seq<(Seq<char>, JsonValue)>),
}

impl Json {
    /// The value of the document: the same tree, over sequences.
    pub open spec fn value(self) -> JsonValue
        decreases self,
    {
        match self {
            Json::Null => JsonValue::Null,
            Json::Bool(b) => JsonValue::Bool(b),
            Json::Number(n) => JsonValue::Number(
                match n {
                    Some(i) => Some(i as int),
                    None => None,
                },
            ),
            Json::Text(s) => JsonValue::Text(s@),
            Json::Array(items) => JsonValue::Array(
                Seq::new(
                    items@.len(),
                    |i: int|
                        if 0 <= i < items@.len() {
                            items@[i].value()
                        } else {
                            JsonValue::Null
                        },
                ),
            ),
            Json::Object(members) => JsonValue::Object(
                Seq::new(
                    members@.len(),
                    |i: int|
                        if 0 <= i < members@.len() {
                            (members@[i].0@, members@[i].1.value())
                        } else {
                            (Seq::empty(), JsonValue::Null)
                        },
                ),
            ),
        }
    }
}

impl View for Json {
    type V = JsonValue;

    open spec fn view(&self) -> JsonValue {
        self.value()
    }
}

/// The document that the last member named `key` holds, among `members`.
pub open spec fn find_member(members: Seq<(Seq<char>, JsonValue)>, key: Seq<char>) -> Option<
    JsonValue,
>
    decreases members.len(),
{
    if members.len() == 0 {
        None
    } else if members.last().0 == key {
        Some(members.last().1)
    } else {
        find_member(members.drop_last(), key)
    }
}

impl JsonValue {
    /// The member named `key` of an object; the last one where several carry
    /// the name. `None` where there is none, or the value is no object.
    pub open spec fn member(self, key: Seq<char>) -> Option<JsonValue> {
        match self {
            JsonValue::Object(members) => find_member(members, key),
            _ => None,
        }
    }

    /// The integer that a number holds, where it lies from `low` to `high`.
    pub open spec fn integer_within(self, low: int, high: int) -> Option<int> {
        match self {
            JsonValue::Number(Some(i)) => if low <= i <= high {
                Some(i)
            } else {
                None
            },
            _ => None,
        }
    }

    /// The characters of a string.
    pub open spec fn text(self) -> Option<Seq<char>> {
        match self {
            JsonValue::Text(s) => Some(s),
            _ => None,
        }
    }

    /// The items of an array.
    pub open spec fn items(self) -> Option<Seq<JsonValue>> {
        match self {
            JsonValue::Array(items) => Some(items),
            _ => None,
        }
    }

    /// The integer member named `key`, where it lies from `low` to `high`.
    pub open spec fn int_member(self, key: Seq<char>, low: int, high: int) -> Option<int> {
        match self.member(key) {
            Some(value) => value.integer_within(low, high),
            None => None,
        }
    }

    /// The string member named `key`.
    pub open spec fn text_member(self, key: Seq<char>) -> Option<Seq<char>> {
        match self.member(key) {
            Some(value) => value.text(),
            None => None,
        }
    }

    /// An integer member that may be left out: no integer where the member is
    /// absent or null, the integer where it is one from `low` to `high`, and
    /// no answer for any other member.
    pub open spec fn optional_int_member(self, key: Seq<char>, low: int, high: int) -> Option<
        Option<int>,
    > {
        match self.member(key) {
            None => Some(None),
            Some(JsonValue::Null) => Some(None),
            Some(value) => match value.integer_within(low, high) {
                Some(i) => Some(Some(i)),
                None => None,
            },
        }
    }

    /// A string member that may be left out: no string where the member is
    /// absent or null, the string where it is one, and no answer for any
    /// other member.
    pub open spec fn optional_text_member(self, key: Seq<char>) -> Option<Option<Seq<char>>> {
        match self.member(key) {
            None => Some(None),
            Some(JsonValue::Null) => Some(None),
            Some(value) => match value.text() {
                Some(s) => Some(Some(s)),
                None => None,
            },
        }
    }

    /// Whether `serde_json` can hold the value as it stands: every number in
    /// it is an integer from `i64::MIN` to `u64::MAX`.
    pub open spec fn writable(self) -> bool
        decreases self,
    {
        match self {
            JsonValue::Number(n) => n matches Some(i) && i64::MIN <= i <= u64::MAX,
            JsonValue::Array(items) => forall|i: int|
                0 <= i < items.len() ==> (#[trigger] items[i]).writable(),
            JsonValue::Object(members) => forall|i: int|
                0 <= i < members.len() ==> (#[trigger] members[i]).1.writable(),
            _ => true,
        }
    }
}

/// The values of the members of an object, in their order.
pub open spec fn members_value(members: Seq<(String, Json)>) -> Seq<(Seq<char>, JsonValue)> {
    Seq::new(members.len(), |i: int| (members[i].0@, members[i].1@))
}

/// The values of the items of an array, in their order.
pub open spec fn items_value(items: Seq<Json>) -> Seq<JsonValue> {
    Seq::new(items.len(), |i: int| items[i]@)
}

/// Whether no two members carry the same name.
pub open spec fn distinct_names(members: Seq<(Seq<char>, JsonValue)>) -> bool {
    forall|i: int, j: int|
        0 <= i < j < members.len() ==> (#[trigger] members[i]).0 != (#[trigger] members[j]).0
}

/// In an object whose members carry distinct names, each member is the one
/// found under its name.
pub proof fn lemma_find_member_distinct(members: Seq<(Seq<char>, JsonValue)>, at: int)
    requires
        distinct_names(members),
        0 <= at < members.len(),
    ensures
        find_member(members, members[at].0) == Some(members[at].1),
    decreases members.len(),
{
    if at < members.len() - 1 {
        assert(members.last() == members[members.len() - 1]);
        assert(members.drop_last()[at] == members[at]);
        assert(distinct_names(members.drop_last())) by {
            assert forall|i: int, j: int| 0 <= i < j < members.drop_last().len() implies (
            #[trigger] members.drop_last()[i]).0 != (#[trigger] members.drop_last()[j]).0 by {
                assert(members.drop_last()[i] == members[i]);
                assert(members.drop_last()[j] == members[j]);
            }
        }
        lemma_find_member_distinct(members.drop_last(), at);
    }
}

/// A name that no member carries finds nothing.
pub proof fn lemma_find_member_absent(members: Seq<(Seq<char>, JsonValue)>, key: Seq<char>)
    requires
        forall|i: int| 0 <= i < members.len() ==> (#[trigger] members[i]).0 != key,
    ensures
        find_member(members, key) is None,
    decreases members.len(),
{
    if members.len() > 0 {
        assert(members.last() == members[members.len() - 1]);
        assert forall|i: int| 0 <= i < members.drop_last().len() implies (
        #[trigger] members.drop_last()[i]).0 != key by {
            assert(members.drop_last()[i] == members[i]);
        }
        lemma_find_member_absent(members.drop_last(), key);
    }
}

impl Json {
    /// A number document that holds `n`.
    pub fn from_u64(n: u64) -> (json: Json)
        ensures
            json@ == JsonValue::Number(Some(n as int)),
    {
        Json::Number(Some(n as i128))
    }

    /// A number document that holds `n`.
    pub fn from_i32(n: i32) -> (json: Json)
        ensures
            json@ == JsonValue::Number(Some(n as int)),
    {
        Json::Number(Some(n as i128))
    }

    /// A string document that holds the characters of `s`.
    pub fn from_text(s: &str) -> (json: Json)
        ensures
            json@ == JsonValue::Text(s@),
    {
        Json::Text(String::from_str(s))
    }

    /// An object document with these members.
    pub fn object(members: Vec<(String, Json)>) -> (json: Json)
        ensures
            json@ == JsonValue::Object(members_value(members@)),
    {
        let json = Json::Object(members);
        assert(json@->Object_0 =~= members_value(members@));
        json
    }

    /// An array document with these items.
    pub fn array(items: Vec<Json>) -> (json: Json)
        ensures
            json@ == JsonValue::Array(items_value(items@)),
    {
        let json = Json::Array(items);
        assert(json@->Array_0 =~= items_value(items@));
        json
    }

    /// One member of an object: a name and a document.
    pub fn entry(name: &str, value: Json) -> (entry: (String, Json))
        ensures
            entry.0@ == name@,
            entry.1 == value,
    {
        (String::from_str(name), value)
    }

    /// Whether the document is an object.
    pub fn is_object(&self) -> (object: bool)
        ensures
            object == (self@ is Object),
    {
        match self {
            Json::Object(_) => true,
            _ => false,
        }
    }

    /// The member named `key` of an object; the last one where several carry
    /// the name.
    pub fn member(&self, key: &str) -> (found: Option<&Json>)
        ensures
            match found {
                Some(json) => self@.member(key@) == Some(json@),
                None => self@.member(key@) is None,
            },
    {
        match self {
            Json::Object(members) => {
                let ghost all = self@->Object_0;
                let mut i: usize = members.len();
                assert(all.take(i as int) =~= all);
                while i > 0
                    invariant
                        i <= members@.len(),
                        self@ == JsonValue::Object(all),
                        all.len() == members@.len(),
                        forall|j: int|
                            0 <= j < all.len() ==> all[j] == (
                                #[trigger] members@[j].0@,
                                members@[j].1@,
                            ),
                        find_member(all, key@) == find_member(all.take(i as int), key@),
                    decreases i,
                {
                    i = i - 1;
                    proof {
                        let shorter = all.take(i + 1);
                        assert(shorter.last() == all[i as int]);
                        assert(shorter.drop_last() =~= all.take(i as int));
                    }
                    if str_eq(members[i].0.as_str(), key) {
                        return Some(&members[i].1);
                    }
                }
                assert(all.take(0).len() == 0);
                None
            },
            _ => None,
        }
    }

    /// The integer of a number document, where it fits a `u64`.
    pub fn as_u64(&self) -> (n: Option<u64>)
        ensures
            match n {
                Some(n) => self@.integer_within(0, u64::MAX as int) == Some(n as int),
                None => self@.integer_within(0, u64::MAX as int) is None,
            },
    {
        match self {
            Json::Number(Some(i)) => {
                if 0 <= *i && *i <= u64::MAX as i128 {
                    Some(*i as u64)
                } else {
                    None
                }
            },
            _ => None,
        }
    }

    /// The integer of a number document, where it fits an `i32`.
    pub fn as_i32(&self) -> (n: Option<i32>)
        ensures
            match n {
                Some(n) => self@.integer_within(i32::MIN as int, i32::MAX as int) == Some(
                    n as int,
                ),
                None => self@.integer_within(i32::MIN as int, i32::MAX as int) is None,
            },
    {
        match self {
            Json::Number(Some(i)) => {
                if i32::MIN as i128 <= *i && *i <= i32::MAX as i128 {
                    Some(*i as i32)
                } else {
                    None
                }
            },
            _ => None,
        }
    }

    /// The characters of a string document.
    pub fn as_text(&self) -> (s: Option<&str>)
        ensures
            match s {
                Some(s) => self@.text() == Some(s@),
                None => self@.text() is None,
            },
    {
        match self {
            Json::Text(s) => Some(s.as_str()),
            _ => None,
        }
    }

    /// The items of an array document.
    pub fn as_items(&self) -> (items: Option<&Vec<Json>>)
        ensures
            match items {
                Some(items) => self@.items() == Some(items_value(items@)),
                None => self@.items() is None,
            },
    {
        match self {
            Json::Array(items) => {
                assert(self@->Array_0 =~= items_value(items@));
                Some(items)
            },
            _ => None,
        }
    }

    /// The member named `key`, where it is an integer that fits a `u64`.
    pub fn u64_member(&self, key: &str) -> (n: Option<u64>)
        ensures
            match n {
                Some(n) => self@.int_member(key@, 0, u64::MAX as int) == Some(n as int),
                None => self@.int_member(key@, 0, u64::MAX as int) is None,
            },
    {
        match self.member(key) {
            Some(value) => value.as_u64(),
            None => None,
        }
    }

    /// The member named `key`, where it is an integer that fits an `i32`.
    pub fn i32_member(&self, key: &str) -> (n: Option<i32>)
        ensures
            match n {
                Some(n) => self@.int_member(key@, i32::MIN as int, i32::MAX as int) == Some(
                    n as int,
                ),
                None => self@.int_member(key@, i32::MIN as int, i32::MAX as int) is None,
            },
    {
        match self.member(key) {
            Some(value) => value.as_i32(),
            None => None,
        }
    }

    /// The member named `key`, where it is a string.
    pub fn text_member(&self, key: &str) -> (s: Option<String>)
        ensures
            match s {
                Some(s) => self@.text_member(key@) == Some(s@),
                None => self@.text_member(key@) is None,
            },
    {
        match self.member(key) {
            Some(value) => match value.as_text() {
                Some(s) => Some(String::from_str(s)),
                None => None,
            },
            None => None,
        }
    }

    /// The member named `key` as an integer that may be left out.
    pub fn optional_u64_member(&self, key: &str) -> (n: Option<Option<u64>>)
        ensures
            match n {
                Some(Some(n)) => self@.optional_int_member(key@, 0, u64::MAX as int) == Some(
                    Some(n as int),
                ),
                Some(None) => self@.optional_int_member(key@, 0, u64::MAX as int) == Some(
                    None::<int>,
                ),
                None => self@.optional_int_member(key@, 0, u64::MAX as int) is None,
            },
    {
        match self.member(key) {
            None => Some(None),
            Some(Json::Null) => Some(None),
            Some(value) => match value.as_u64() {
                Some(n) => Some(Some(n)),
                None => None,
            },
        }
    }

    /// The member named `key` as a string that may be left out.
    pub fn optional_text_member(&self, key: &str) -> (s: Option<Option<String>>)
        ensures
            match s {
                Some(Some(s)) => self@.optional_text_member(key@) == Some(Some(s@)),
                Some(None) => self@.optional_text_member(key@) == Some(None::<Seq<char>>),
                None => self@.optional_text_member(key@) is None,
            },
    {
        match self.member(key) {
            None => Some(None),
            Some(Json::Null) => Some(None),
            Some(value) => match value.as_text() {
                Some(s) => Some(Some(String::from_str(s))),
                None => None,
            },
        }
    }
}

/// `serde_json::Value`, the document type of `serde_json`. Nothing inside it
/// is visible here: a value of it only passes between `serde_json` and the
/// functions below, which move it into and out of a [`Json`].
#[verifier::external_type_specification]
#[verifier::external_body]
pub struct ExValue(serde_json::Value);

/// What `serde_json::from_str` reads from a text: the document that the text
/// holds, or nothing where the text is not one JSON document.
pub uninterp spec fn json_parse(text: Seq<char>) -> Option<JsonValue>;

/// What `serde_json::to_string` writes for a document: its compact text.
pub uninterp spec fn json_text(value: JsonValue) -> Seq<char>;

/// Moves a `serde_json::Value` into a [`Json`], variant by variant. A number
/// is handed over as `serde_json::Number::as_i128` gives it. Nothing is
/// claimed of the result here.
#[verifier::external_body]
fn json_from_value(value: serde_json::Value) -> Json {
    match value {
        serde_json::Value::Null => Json::Null,
        serde_json::Value::Bool(b) => Json::Bool(b),
        serde_json::Value::Number(n) => Json::Number(n.as_i128()),
        serde_json::Value::String(s) => Json::Text(s),
        serde_json::Value::Array(items) => Json::Array(
            items.into_iter().map(json_from_value).collect(),
        ),
        serde_json::Value::Object(members) => Json::Object(
            members.into_iter().map(|(name, value)| (name, json_from_value(value))).collect(),
        ),
    }
}

/// Moves a [`Json`] into a `serde_json::Value`, variant by variant. A number
/// goes through `serde_json::Number::from_i128`. Nothing is claimed of the
/// result here.
#[verifier::external_body]
fn json_to_value(json: &Json) -> serde_json::Value {
    match json {
        Json::Null => serde_json::Value::Null,
        Json::Bool(b) => serde_json::Value::Bool(*b),
        Json::Number(n) => serde_json::Value::from(n.and_then(serde_json::Number::from_i128)),
        Json::Text(s) => serde_json::Value::String(s.clone()),
        Json::Array(items) => serde_json::Value::Array(items.iter().map(json_to_value).collect()),
        Json::Object(members) => serde_json::Value::Object(
            members.iter().map(|(name, value)| (name.clone(), json_to_value(value))).collect(),
        ),
    }
}

/// Calls `serde_json::from_str` for a `serde_json::Value`. The contract only
/// gives the outcome a name: the document read is a function of the text, and
/// so is whether one is read. Where none is read, the result holds what
/// `serde_json` says of it, and nothing is claimed of those words.
#[verifier::external_body]
pub(crate) fn parse_json(text: &str) -> (read: Result<Json, String>)
    ensures
        match read {
            Ok(json) => json_parse(text@) == Some(json@),
            Err(_) => json_parse(text@) is None,
        },
{
    serde_json::from_str::<serde_json::Value>(text).map(json_from_value).map_err(|e| e.to_string())
}

/// Calls `serde_json::to_string` on the document as a `serde_json::Value`, for
/// a document that such a value can hold. The contract claims two things of
/// it. A text is written: `serde_json` writes into a `Vec`, whose writes do not
/// fail, every name of a member is a string, and an integer, a string, a
/// truth value and null each have their text, so no step of the writer
/// reports an error. And the contract gives that text a name: it is a
/// function of the document.
#[verifier::external_body]
pub(crate) fn render_json(json: &Json) -> (written: Result<String, String>)
    requires
        json@.writable(),
    ensures
        match written {
            Ok(text) => text@ == json_text(json@),
            Err(_) => false,
        },
{
    serde_json::to_string(&json_to_value(json)).map_err(|e| e.to_string())
}

} // verus!
