//! Payloads: what follows the name and the space in a frame, and the few
//! shapes that the payloads of the protocol take.

use vstd::prelude::*;
use vstd::string::*;
use crate::command::{views, Record, TableID};
use crate::json::{
    json_parse, json_text, lemma_find_member_distinct, parse_json, render_json, Json, JsonValue,
};

verus! {

/// What follows the name and the space in a frame.
#[derive(Debug, PartialEq, Eq)]
pub enum Payload {
    /// Nothing at all: the payload of a command without fields.
    Empty,
    /// A JSON document.
    Document(Json),
}

/// The mathematical value of a [`Payload`].
pub enum PayloadValue {
    Empty,
    Document(JsonValue),
}

impl View for Payload {
    type V = PayloadValue;

    open spec fn view(&self) -> PayloadValue {
        match self {
            Payload::Empty => PayloadValue::Empty,
            Payload::Document(json) => PayloadValue::Document(json@),
        }
    }
}

impl PayloadValue {
    /// The payload that a text holds: none for the empty text, otherwise the
    /// JSON document that the text is, where it is one.
    pub open spec fn read(text: Seq<char>) -> Option<PayloadValue> {
        if text.len() == 0 {
            Some(PayloadValue::Empty)
        } else {
            match json_parse(text) {
                Some(value) => Some(PayloadValue::Document(value)),
                None => None,
            }
        }
    }

    /// The text of a payload: empty, or the compact JSON text of its document.
    pub open spec fn written(self) -> Seq<char> {
        match self {
            PayloadValue::Empty => Seq::empty(),
            PayloadValue::Document(value) => json_text(value),
        }
    }

    /// Whether the payload comes back from its own text: what is written for
    /// it is read as the same payload. The empty payload does; of a document
    /// it is the JSON reader and writer that decide.
    pub open spec fn reads_back(self) -> bool {
        PayloadValue::read(self.written()) == Some(self)
    }

    /// Whether the payload can be written: its document, if it has one, holds
    /// only numbers that JSON text can carry exactly.
    pub open spec fn writable(self) -> bool {
        match self {
            PayloadValue::Empty => true,
            PayloadValue::Document(value) => value.writable(),
        }
    }
}

/// Reads the payload of a frame.
pub fn read_payload(text: &str) -> (read: Result<Payload, String>)
    ensures
        match read {
            Ok(payload) => PayloadValue::read(text@) == Some(payload@),
            Err(_) => PayloadValue::read(text@) is None,
        },
{
    if text.is_empty() {
        Ok(Payload::Empty)
    } else {
        match parse_json(text) {
            Ok(json) => Ok(Payload::Document(json)),
            Err(e) => Err(e),
        }
    }
}

/// Writes the payload of a frame.
pub(crate) fn write_payload(payload: &Payload) -> (text: String)
    requires
        payload@.writable(),
    ensures
        text@ == payload@.written(),
{
    match payload {
        Payload::Empty => String::new(),
        Payload::Document(json) => match render_json(json) {
            Ok(text) => text,
            Err(_) => vstd::pervasive::unreached(),
        },
    }
}

/// The array that carries a list of records: one document for each, in order.
pub open spec fn list_document<T: Record>(records: Seq<T::V>) -> JsonValue {
    JsonValue::Array(Seq::new(records.len(), |i: int| T::document_of(records[i])))
}

/// The records that an array carries, where every item of it has the
/// record's shape.
pub open spec fn list_of_document<T: Record>(document: JsonValue) -> Option<Seq<T::V>> {
    match document {
        JsonValue::Array(items) => if forall|i: int|
            0 <= i < items.len() ==> T::record_of(#[trigger] items[i]) is Some {
            Some(Seq::new(items.len(), |i: int| T::record_of(items[i])->0))
        } else {
            None
        },
        _ => None,
    }
}

/// Every list of records comes back from its own array, and its array can be
/// written.
pub proof fn lemma_list_round_trip<T: Record>(records: Seq<T::V>)
    ensures
        list_of_document::<T>(list_document::<T>(records)) == Some(records),
        list_document::<T>(records).writable(),
{
    let items = Seq::new(records.len(), |i: int| T::document_of(records[i]));
    assert forall|i: int| 0 <= i < items.len() implies T::record_of(#[trigger] items[i]) == Some(
        records[i],
    ) && items[i].writable() by {
        T::lemma_record_round_trip(records[i]);
    }
    assert(Seq::new(items.len(), |i: int| T::record_of(items[i])->0) =~= records);
}

/// Lays a list of records out as an array.
pub fn list_to_document<T: Record>(records: &Vec<T>) -> (document: Json)
    ensures
        document@ == list_document::<T>(views(records@)),
{
    let mut items: Vec<Json> = Vec::new();
    let mut i: usize = 0;
    while i < records.len()
        invariant
            i <= records@.len(),
            items@.len() == i,
            forall|j: int| 0 <= j < i ==> (#[trigger] items@[j])@ == T::document_of(records@[j]@),
        decreases records@.len() - i,
    {
        items.push(records[i].to_document());
        i = i + 1;
    }
    let document = Json::array(items);
    assert(document@->Array_0 =~= list_document::<T>(views(records@))->Array_0);
    document
}

/// Reads a list of records from an array.
pub fn list_from_document<T: Record>(document: &Json) -> (records: Option<Vec<T>>)
    ensures
        match records {
            Some(records) => list_of_document::<T>(document@) == Some(views(records@)),
            None => list_of_document::<T>(document@) is None,
        },
{
    match document.as_items() {
        Some(items) => {
            let ghost values = document@->Array_0;
            let mut records: Vec<T> = Vec::new();
            let mut i: usize = 0;
            while i < items.len()
                invariant
                    i <= items@.len(),
                    records@.len() == i,
                    document@ == JsonValue::Array(values),
                    values.len() == items@.len(),
                    forall|j: int| 0 <= j < values.len() ==> #[trigger] values[j] == items@[j]@,
                    forall|j: int|
                        0 <= j < i ==> T::record_of(values[j]) == Some((#[trigger] records@[j])@),
                decreases items@.len() - i,
            {
                match T::from_document(&items[i]) {
                    Some(record) => {
                        records.push(record);
                    },
                    None => {
                        assert(T::record_of(values[i as int]) is None);
                        return None;
                    },
                }
                i = i + 1;
            }
            proof {
                assert forall|j: int| 0 <= j < values.len() implies T::record_of(
                    #[trigger] values[j],
                ) == Some(records@[j]@) by {
                    assert(T::record_of(values[j]) == Some(records@[j]@));
                }
                assert(Seq::new(values.len(), |j: int| T::record_of(values[j])->0) =~= views(
                    records@,
                ));
            }
            Some(records)
        },
        None => None,
    }
}

/// The payload of a record that is a command by itself: its document.
pub open spec fn record_payload<T: Record>(record: T::V) -> PayloadValue {
    PayloadValue::Document(T::document_of(record))
}

/// The record that a payload carries: the one in its document.
pub open spec fn record_of_payload<T: Record>(payload: PayloadValue) -> Option<T::V> {
    match payload {
        PayloadValue::Document(document) => T::record_of(document),
        PayloadValue::Empty => None,
    }
}

/// Lays a record out as the payload of a frame.
pub fn record_to_payload<T: Record>(record: &T) -> (payload: Payload)
    ensures
        payload@ == record_payload::<T>(record@),
{
    Payload::Document(record.to_document())
}

/// Reads a record from the payload of a frame.
pub fn record_from_payload<T: Record>(payload: &Payload) -> (record: Option<T>)
    ensures
        match record {
            Some(record) => record_of_payload::<T>(payload@) == Some(record@),
            None => record_of_payload::<T>(payload@) is None,
        },
{
    match payload {
        Payload::Document(document) => T::from_document(document),
        Payload::Empty => None,
    }
}

/// The payload of a list of records: their array.
pub open spec fn list_payload<T: Record>(records: Seq<T::V>) -> PayloadValue {
    PayloadValue::Document(list_document::<T>(records))
}

/// The list of records that a payload carries: the one in its array.
pub open spec fn list_of_payload<T: Record>(payload: PayloadValue) -> Option<Seq<T::V>> {
    match payload {
        PayloadValue::Document(document) => list_of_document::<T>(document),
        PayloadValue::Empty => None,
    }
}

/// Lays a list of records out as the payload of a frame.
pub fn list_to_payload<T: Record>(records: &Vec<T>) -> (payload: Payload)
    ensures
        payload@ == list_payload::<T>(views(records@)),
{
    Payload::Document(list_to_document(records))
}

/// Reads a list of records from the payload of a frame.
pub fn list_from_payload<T: Record>(payload: &Payload) -> (records: Option<Vec<T>>)
    ensures
        match records {
            Some(records) => list_of_payload::<T>(payload@) == Some(views(records@)),
            None => list_of_payload::<T>(payload@) is None,
        },
{
    match payload {
        Payload::Document(document) => list_from_document(document),
        Payload::Empty => None,
    }
}

/// The payload of a command whose one field is a table: an object with the
/// member `tableID`.
pub open spec fn table_id_payload(table_id: TableID) -> PayloadValue {
    PayloadValue::Document(
        JsonValue::Object(seq![("tableID"@, JsonValue::Number(Some(table_id.0 as int)))]),
    )
}

/// The table that a payload names in its member `tableID`.
pub open spec fn table_id_of_payload(payload: PayloadValue) -> Option<TableID> {
    match payload {
        PayloadValue::Document(document) => match document.int_member(
            "tableID"@,
            0,
            u64::MAX as int,
        ) {
            Some(id) => Some(TableID(id as u64)),
            None => None,
        },
        PayloadValue::Empty => None,
    }
}

/// Every table comes back from the payload that names it, and that payload
/// can be written.
pub proof fn lemma_table_id_round_trip(table_id: TableID)
    ensures
        table_id_of_payload(table_id_payload(table_id)) == Some(table_id),
        table_id_payload(table_id).writable(),
{
    reveal_with_fuel(JsonValue::writable, 2);
    let members = table_id_payload(table_id)->Document_0->Object_0;
    lemma_find_member_distinct(members, 0);
}

/// Lays a table identifier out as a payload.
pub fn table_id_to_payload(table_id: TableID) -> (payload: Payload)
    ensures
        payload@ == table_id_payload(table_id),
{
    let mut members: Vec<(String, Json)> = Vec::new();
    members.push(Json::entry("tableID", Json::from_u64(table_id.0)));
    let document = Json::object(members);
    assert(document@->Object_0 =~= table_id_payload(table_id)->Document_0->Object_0);
    Payload::Document(document)
}

/// Reads a table identifier from a payload.
pub fn table_id_from_payload(payload: &Payload) -> (table_id: Option<TableID>)
    ensures
        table_id == table_id_of_payload(payload@),
{
    match payload {
        Payload::Document(document) => match document.u64_member("tableID") {
            Some(id) => Some(TableID(id)),
            None => None,
        },
        Payload::Empty => None,
    }
}

/// The payload of a command whose one field is a text: an object with the
/// member `key`.
pub open spec fn text_payload(key: Seq<char>, text: Seq<char>) -> PayloadValue {
    PayloadValue::Document(JsonValue::Object(seq![(key, JsonValue::Text(text))]))
}

/// The text that a payload holds in its member `key`.
pub open spec fn text_of_payload(key: Seq<char>, payload: PayloadValue) -> Option<Seq<char>> {
    match payload {
        PayloadValue::Document(document) => document.text_member(key),
        PayloadValue::Empty => None,
    }
}

/// Every text comes back from the payload that holds it, and that payload can
/// be written.
pub proof fn lemma_text_round_trip(key: Seq<char>, text: Seq<char>)
    ensures
        text_of_payload(key, text_payload(key, text)) == Some(text),
        text_payload(key, text).writable(),
{
    reveal_with_fuel(JsonValue::writable, 2);
    let members = text_payload(key, text)->Document_0->Object_0;
    lemma_find_member_distinct(members, 0);
}

/// Lays a text out as a payload, under the member `key`.
pub fn text_to_payload(key: &str, text: &str) -> (payload: Payload)
    ensures
        payload@ == text_payload(key@, text@),
{
    let mut members: Vec<(String, Json)> = Vec::new();
    members.push(Json::entry(key, Json::from_text(text)));
    let document = Json::object(members);
    assert(document@->Object_0 =~= text_payload(key@, text@)->Document_0->Object_0);
    Payload::Document(document)
}

/// Reads the text under the member `key` from a payload.
pub fn text_from_payload(key: &str, payload: &Payload) -> (text: Option<String>)
    ensures
        match text {
            Some(text) => text_of_payload(key@, payload@) == Some(text@),
            None => text_of_payload(key@, payload@) is None,
        },
{
    match payload {
        Payload::Document(document) => document.text_member(key),
        Payload::Empty => None,
    }
}

/// The payload of a command that is written with braces and has no field: an
/// object without members.
pub open spec fn empty_object_payload() -> PayloadValue {
    PayloadValue::Document(JsonValue::Object(Seq::empty()))
}

/// Whether a payload is an object, whatever its members.
pub open spec fn is_object_payload(payload: PayloadValue) -> bool {
    payload matches PayloadValue::Document(document) && document is Object
}

/// The object without members is an object, and can be written.
pub proof fn lemma_empty_object()
    ensures
        is_object_payload(empty_object_payload()),
        empty_object_payload().writable(),
{
    reveal_with_fuel(JsonValue::writable, 2);
}

/// The payload that is an object without members.
pub fn empty_object_to_payload() -> (payload: Payload)
    ensures
        payload@ == empty_object_payload(),
{
    let members: Vec<(String, Json)> = Vec::new();
    let document = Json::object(members);
    assert(document@->Object_0 =~= Seq::empty());
    Payload::Document(document)
}

/// Whether a payload is an object.
pub fn object_from_payload(payload: &Payload) -> (object: bool)
    ensures
        object == is_object_payload(payload@),
{
    match payload {
        Payload::Document(document) => document.is_object(),
        Payload::Empty => false,
    }
}

} // verus!
