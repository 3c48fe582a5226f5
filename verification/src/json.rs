//! JSON documents as values of the library.
//!
//! Parsing is done by `serde_json`. A parsed document is brought into
//! [`JsonValue`], which verified code can take apart.

use crate::string_map::{distinct_keys, lemma_position_is, lookup};
use crate::text::str_eq;
use vstd::prelude::*;

verus! {

/// A JSON document. A number is held as the text that writes it.
#[derive(Debug, PartialEq, Eq)]
pub enum JsonValue {
    Null,
    Bool(bool),
    Number(String),
    Text(String),
    Array(Vec<JsonValue>),
    Object(Vec<(String, JsonValue)>),
}

/// A JSON document as a mathematical value.
pub enum JsonModel {
    Null,
    Bool(bool),
    Number(Seq<char>),
    Text(Seq<char>),
    Array(Seq<JsonModel>),
    Object(Seq<(Seq<char>, JsonModel)>),
}

/// The document that a [`JsonValue`] holds.
pub open spec fn json_model(json: JsonValue) -> JsonModel
    decreases json,
{
    match json {
        JsonValue::Null => JsonModel::Null,
        JsonValue::Bool(b) => JsonModel::Bool(b),
        JsonValue::Number(text) => JsonModel::Number(text@),
        JsonValue::Text(text) => JsonModel::Text(text@),
        JsonValue::Array(items) => JsonModel::Array(json_models(items@)),
        JsonValue::Object(fields) => JsonModel::Object(json_field_models(fields@)),
    }
}

/// The documents of the items of an array, in order.
pub open spec fn json_models(items: Seq<JsonValue>) -> Seq<JsonModel>
    decreases items,
{
    if items.len() == 0 {
        Seq::empty()
    } else {
        json_models(items.drop_last()).push(json_model(items.last()))
    }
}

/// The names and documents of the fields of an object, in order.
pub open spec fn json_field_models(fields: Seq<(String, JsonValue)>) -> Seq<
    (Seq<char>, JsonModel),
>
    decreases fields,
{
    if fields.len() == 0 {
        Seq::empty()
    } else {
        json_field_models(fields.drop_last()).push((fields.last().0@, json_model(fields.last().1)))
    }
}

impl View for JsonValue {
    type V = JsonModel;

    open spec fn view(&self) -> JsonModel {
        json_model(*self)
    }
}

/// The documents of an array's items are as many as the items, and each is
/// the document of the item at its place.
pub proof fn lemma_json_models(items: Seq<JsonValue>)
    ensures
        json_models(items).len() == items.len(),
        forall|i: int| 0 <= i < items.len() ==> (#[trigger] json_models(items)[i]) == items[i]@,
    decreases items.len(),
{
    if items.len() > 0 {
        lemma_json_models(items.drop_last());
    }
}

/// The fields of an object's document are as many as the fields, and each
/// has the name and the document of the field at its place.
pub proof fn lemma_json_field_models(fields: Seq<(String, JsonValue)>)
    ensures
        json_field_models(fields).len() == fields.len(),
        forall|i: int|
            0 <= i < fields.len() ==> (#[trigger] json_field_models(fields)[i]) == (
                fields[i].0@,
                fields[i].1@,
            ),
    decreases fields.len(),
{
    if fields.len() > 0 {
        lemma_json_field_models(fields.drop_last());
    }
}

/// Whether no object of a document, at any depth, holds a name twice.
pub open spec fn json_names_distinct(json: JsonModel) -> bool
    decreases json,
{
    match json {
        JsonModel::Array(items) => items_names_distinct(items),
        JsonModel::Object(fields) => distinct_keys(fields) && fields_names_distinct(fields),
        _ => true,
    }
}

/// `json_names_distinct` of every item of an array.
pub open spec fn items_names_distinct(items: Seq<JsonModel>) -> bool
    decreases items,
{
    items.len() == 0 || (items_names_distinct(items.drop_last()) && json_names_distinct(
        items.last(),
    ))
}

/// `json_names_distinct` of what every field of an object holds.
pub open spec fn fields_names_distinct(fields: Seq<(Seq<char>, JsonModel)>) -> bool
    decreases fields,
{
    fields.len() == 0 || (fields_names_distinct(fields.drop_last()) && json_names_distinct(
        fields.last().1,
    ))
}

/// No object in an array holds a name twice just when none in any of its
/// items does.
pub proof fn lemma_items_names_distinct(items: Seq<JsonModel>)
    ensures
        items_names_distinct(items) <==> forall|i: int|
            0 <= i < items.len() ==> json_names_distinct(#[trigger] items[i]),
    decreases items.len(),
{
    if items.len() > 0 {
        let front = items.drop_last();
        lemma_items_names_distinct(front);
        if items_names_distinct(items) {
            assert forall|i: int| 0 <= i < items.len() implies json_names_distinct(
                #[trigger] items[i],
            ) by {
                if i < front.len() {
                    assert(front[i] == items[i]);
                }
            }
        } else if json_names_distinct(items.last()) {
            let k = choose|k: int|
                0 <= k < front.len() && !json_names_distinct(#[trigger] front[k]);
            assert(front[k] == items[k]);
        }
    }
}

/// No object in the fields of an object holds a name twice just when none
/// in what any of the fields holds does.
pub proof fn lemma_fields_names_distinct(fields: Seq<(Seq<char>, JsonModel)>)
    ensures
        fields_names_distinct(fields) <==> forall|i: int|
            0 <= i < fields.len() ==> json_names_distinct((#[trigger] fields[i]).1),
    decreases fields.len(),
{
    if fields.len() > 0 {
        let front = fields.drop_last();
        lemma_fields_names_distinct(front);
        if fields_names_distinct(fields) {
            assert forall|i: int| 0 <= i < fields.len() implies json_names_distinct(
                (#[trigger] fields[i]).1,
            ) by {
                if i < front.len() {
                    assert(front[i] == fields[i]);
                }
            }
        } else if json_names_distinct(fields.last().1) {
            let k = choose|k: int|
                0 <= k < front.len() && !json_names_distinct((#[trigger] front[k]).1);
            assert(front[k] == fields[k]);
        }
    }
}

/// What a document with distinct names holds under a name has distinct
/// names too.
pub proof fn lemma_field_names_distinct(json: JsonModel, name: Seq<char>)
    requires
        json_names_distinct(json),
        json_field(json, name) is Some,
    ensures
        json_names_distinct(json_field(json, name).unwrap()),
{
    let fields = json->Object_0;
    lemma_fields_names_distinct(fields);
    crate::string_map::lemma_position(fields, name);
    assert(json_names_distinct(fields[crate::string_map::position(fields, name)].1));
}

impl JsonValue {
    /// No object of the document holds a name twice. Every document that
    /// `parse_json` returns is such a document. One that is built by hand
    /// may not be; of its fields with the same name only the first counts.
    pub open spec fn wf(&self) -> bool {
        json_names_distinct(self@)
    }
}

/// `serde_json::Value`, the document as the parser returns it. Nothing is
/// known of a value of this type but what the two functions below state.
#[verifier::external_type_specification]
#[verifier::external_body]
pub struct ExDocument(serde_json::Value);

/// What `serde_json` makes of a text: the document that the text writes, or
/// the parser's complaint where the text is no JSON.
pub uninterp spec fn json_document(text: Seq<char>) -> Result<JsonModel, Seq<char>>;

/// The document that a `serde_json::Value` holds.
pub uninterp spec fn document_model(document: serde_json::Value) -> JsonModel;

/// Calls `serde_json::from_str` for a `serde_json::Value`. The contract names
/// what the parser returns: a document, or its message for a text that it
/// does not accept.
#[verifier::external_body]
fn parse_document(text: &str) -> (parsed: Result<serde_json::Value, String>)
    ensures
        match parsed {
            Ok(document) => json_document(text@) == Ok::<JsonModel, Seq<char>>(
                document_model(document),
            ),
            Err(message) => json_document(text@) == Err::<JsonModel, Seq<char>>(message@),
        },
{
    serde_json::from_str::<serde_json::Value>(text).map_err(|e| e.to_string())
}

/// Moves a `serde_json::Value` into a [`JsonValue`], variant by variant. A
/// number becomes the text that `serde_json` writes for it; the fields of an
/// object come in the order in which `serde_json` hands them out. The
/// contract names the document and says that no object in it holds a name
/// twice: the objects of `serde_json` are maps.
#[verifier::external_body]
fn take_document(document: serde_json::Value) -> (json: JsonValue)
    ensures
        json@ == document_model(document),
        json.wf(),
{
    match document {
        serde_json::Value::Null => JsonValue::Null,
        serde_json::Value::Bool(b) => JsonValue::Bool(b),
        serde_json::Value::Number(n) => JsonValue::Number(n.to_string()),
        serde_json::Value::String(s) => JsonValue::Text(s),
        serde_json::Value::Array(a) => JsonValue::Array(a.into_iter().map(take_document).collect()),
        serde_json::Value::Object(o) => JsonValue::Object(
            o.into_iter().map(|(k, v)| (k, take_document(v))).collect(),
        ),
    }
}

/// Parses a text as JSON. No object of the document that comes out holds a
/// name twice: of a name that the text writes more than once, the parser
/// keeps one field.
pub fn parse_json(text: &str) -> (parsed: Result<JsonValue, String>)
    ensures
        match parsed {
            Ok(json) => json_document(text@) == Ok::<JsonModel, Seq<char>>(json@) && json.wf(),
            Err(message) => json_document(text@) == Err::<JsonModel, Seq<char>>(message@),
        },
{
    match parse_document(text) {
        Ok(document) => Ok(take_document(document)),
        Err(message) => Err(message),
    }
}

/// The text of a JSON string or number; other documents have none.
pub open spec fn json_text(json: JsonModel) -> Option<Seq<char>> {
    match json {
        JsonModel::Text(text) => Some(text),
        JsonModel::Number(text) => Some(text),
        _ => None,
    }
}

/// What an object holds under a name; a document that is no object holds
/// nothing under any name.
pub open spec fn json_field(json: JsonModel, name: Seq<char>) -> Option<JsonModel> {
    match json {
        JsonModel::Object(fields) => lookup(fields, name),
        _ => None,
    }
}

impl JsonValue {
    /// The text of a string or a number.
    pub fn text(&self) -> (text: Option<&String>)
        ensures
            match text {
                Some(t) => json_text(self@) == Some(t@),
                None => json_text(self@) is None,
            },
    {
        match self {
            JsonValue::Text(text) => Some(text),
            JsonValue::Number(text) => Some(text),
            _ => None,
        }
    }

    /// What the object holds under `name`.
    pub fn field(&self, name: &str) -> (found: Option<&JsonValue>)
        ensures
            match found {
                Some(json) => json_field(self@, name@) == Some(json@),
                None => json_field(self@, name@) is None,
            },
    {
        match self {
            JsonValue::Object(fields) => {
                let ghost models = self@->Object_0;
                proof {
                    lemma_json_field_models(fields@);
                }
                let mut i: usize = 0;
                while i < fields.len()
                    invariant
                        i <= fields.len(),
                        self@ == JsonModel::Object(models),
                        models.len() == fields@.len(),
                        forall|k: int|
                            0 <= k < fields@.len() ==> models[k] == (fields@[k].0@, fields@[k].1@),
                        forall|k: int| 0 <= k < i ==> models[k].0 != name@,
                    decreases fields.len() - i,
                {
                    if str_eq(fields[i].0.as_str(), name) {
                        proof {
                            lemma_position_is(models, name@, i as int);
                        }
                        return Some(&fields[i].1);
                    }
                    i += 1;
                }
                proof {
                    lemma_position_is(models, name@, i as int);
                }
                None
            },
            _ => None,
        }
    }
}

} // verus!
