//! The uniform value that every response is turned into.
//!
//! A response holds text, lists and maps. Numbers are kept as the text that
//! writes them, so that no digit is lost; `null` and booleans are not
//! supported and are reported as such.

use crate::error::{ErrorView, ExchangeError};
use crate::json::{
    fields_names_distinct, items_names_distinct, json_names_distinct, lemma_json_field_models,
    lemma_json_models, JsonModel, JsonValue,
};
use crate::string_map::{
    distinct_keys, lemma_lookup_is_some, lemma_lookup_push, lemma_position, lemma_position_is,
    lookup, name_occurs_before, StringMap,
};
use crate::text::str_eq;
use vstd::prelude::*;

verus! {

/// A value of a response: a text, a map from field names to values, or a list
/// of values.
#[derive(Debug, PartialEq, Eq)]
pub enum DataValue {
    ValueString(String),
    ValueMap(Vec<(String, DataValue)>),
    ValueVector(Vec<DataValue>),
}

/// A [`DataValue`] as a mathematical value. The fields of a map stand in the
/// order of the document that they came from.
pub enum DataModel {
    Text(Seq<char>),
    Record(Seq<(Seq<char>, DataModel)>),
    List(Seq<DataModel>),
}

/// The value that a [`DataValue`] holds.
pub open spec fn data_model(value: DataValue) -> DataModel
    decreases value,
{
    match value {
        DataValue::ValueString(text) => DataModel::Text(text@),
        DataValue::ValueMap(fields) => DataModel::Record(field_models(fields@)),
        DataValue::ValueVector(items) => DataModel::List(list_models(items@)),
    }
}

/// The values of the items of a list, in order.
pub open spec fn list_models(items: Seq<DataValue>) -> Seq<DataModel>
    decreases items,
{
    if items.len() == 0 {
        Seq::empty()
    } else {
        list_models(items.drop_last()).push(data_model(items.last()))
    }
}

/// The names and values of the fields of a map, in order.
pub open spec fn field_models(fields: Seq<(String, DataValue)>) -> Seq<(Seq<char>, DataModel)>
    decreases fields,
{
    if fields.len() == 0 {
        Seq::empty()
    } else {
        field_models(fields.drop_last()).push((fields.last().0@, data_model(fields.last().1)))
    }
}

impl View for DataValue {
    type V = DataModel;

    open spec fn view(&self) -> DataModel {
        data_model(*self)
    }
}

/// The values of a list's items are as many as the items, and each is the
/// value of the item at its place.
pub proof fn lemma_list_models(items: Seq<DataValue>)
    ensures
        list_models(items).len() == items.len(),
        forall|i: int| 0 <= i < items.len() ==> (#[trigger] list_models(items)[i]) == items[i]@,
    decreases items.len(),
{
    if items.len() > 0 {
        lemma_list_models(items.drop_last());
    }
}

/// The fields of a map's value are as many as the fields, and each has the
/// name and the value of the field at its place.
pub proof fn lemma_field_models(fields: Seq<(String, DataValue)>)
    ensures
        field_models(fields).len() == fields.len(),
        forall|i: int|
            0 <= i < fields.len() ==> (#[trigger] field_models(fields)[i]) == (
                fields[i].0@,
                fields[i].1@,
            ),
    decreases fields.len(),
{
    if fields.len() > 0 {
        lemma_field_models(fields.drop_last());
    }
}

/// Whether a document can be turned into a response value: it holds no `null`
/// and no boolean, at any depth.
pub open spec fn convertible(json: JsonModel) -> bool
    decreases json,
{
    match json {
        JsonModel::Null => false,
        JsonModel::Bool(_) => false,
        JsonModel::Number(_) => true,
        JsonModel::Text(_) => true,
        JsonModel::Array(items) => all_convertible(items),
        JsonModel::Object(fields) => all_fields_convertible(fields),
    }
}

/// Every item of an array can be turned into a response value.
pub open spec fn all_convertible(items: Seq<JsonModel>) -> bool
    decreases items,
{
    items.len() == 0 || (all_convertible(items.drop_last()) && convertible(items.last()))
}

/// Every field of an object holds what can be turned into a response value.
pub open spec fn all_fields_convertible(fields: Seq<(Seq<char>, JsonModel)>) -> bool
    decreases fields,
{
    fields.len() == 0 || (all_fields_convertible(fields.drop_last()) && convertible(
        fields.last().1,
    ))
}

/// An array can be converted just when each of its items can.
pub proof fn lemma_all_convertible(items: Seq<JsonModel>)
    ensures
        all_convertible(items) <==> forall|i: int|
            0 <= i < items.len() ==> convertible(#[trigger] items[i]),
    decreases items.len(),
{
    if items.len() > 0 {
        let front = items.drop_last();
        lemma_all_convertible(front);
        if all_convertible(items) {
            assert forall|i: int| 0 <= i < items.len() implies convertible(
                #[trigger] items[i],
            ) by {
                if i < front.len() {
                    assert(front[i] == items[i]);
                }
            }
        } else if convertible(items.last()) {
            let k = choose|k: int| 0 <= k < front.len() && !convertible(#[trigger] front[k]);
            assert(front[k] == items[k]);
        }
    }
}

/// An object can be converted just when each of its fields can.
pub proof fn lemma_all_fields_convertible(fields: Seq<(Seq<char>, JsonModel)>)
    ensures
        all_fields_convertible(fields) <==> forall|i: int|
            0 <= i < fields.len() ==> convertible((#[trigger] fields[i]).1),
    decreases fields.len(),
{
    if fields.len() > 0 {
        let front = fields.drop_last();
        lemma_all_fields_convertible(front);
        if all_fields_convertible(fields) {
            assert forall|i: int| 0 <= i < fields.len() implies convertible(
                (#[trigger] fields[i]).1,
            ) by {
                if i < front.len() {
                    assert(front[i] == fields[i]);
                }
            }
        } else if convertible(fields.last().1) {
            let k = choose|k: int| 0 <= k < front.len() && !convertible((#[trigger] front[k]).1);
            assert(front[k] == fields[k]);
        }
    }
}

/// The response value of a document: objects become maps, arrays become
/// lists, strings stay, and a number becomes the text that writes it.
pub open spec fn converted(json: JsonModel) -> DataModel
    recommends
        convertible(json),
    decreases json,
{
    match json {
        JsonModel::Number(text) => DataModel::Text(text),
        JsonModel::Text(text) => DataModel::Text(text),
        JsonModel::Array(items) => DataModel::List(converted_items(items)),
        JsonModel::Object(fields) => DataModel::Record(converted_fields(fields)),
        _ => arbitrary(),
    }
}

/// The response values of the items of an array, in order.
pub open spec fn converted_items(items: Seq<JsonModel>) -> Seq<DataModel>
    decreases items,
{
    if items.len() == 0 {
        Seq::empty()
    } else {
        converted_items(items.drop_last()).push(converted(items.last()))
    }
}

/// The fields of an object with their response values, in order and under
/// their names.
pub open spec fn converted_fields(fields: Seq<(Seq<char>, JsonModel)>) -> Seq<
    (Seq<char>, DataModel),
>
    decreases fields,
{
    if fields.len() == 0 {
        Seq::empty()
    } else {
        converted_fields(fields.drop_last()).push((fields.last().0, converted(fields.last().1)))
    }
}

/// The converted items are as many as the items, each converted at its place.
pub proof fn lemma_converted_items(items: Seq<JsonModel>)
    ensures
        converted_items(items).len() == items.len(),
        forall|i: int|
            0 <= i < items.len() ==> (#[trigger] converted_items(items)[i]) == converted(
                items[i],
            ),
    decreases items.len(),
{
    if items.len() > 0 {
        lemma_converted_items(items.drop_last());
    }
}

/// The converted fields are as many as the fields, each converted at its
/// place and under its name.
pub proof fn lemma_converted_fields(fields: Seq<(Seq<char>, JsonModel)>)
    ensures
        converted_fields(fields).len() == fields.len(),
        forall|i: int|
            0 <= i < fields.len() ==> (#[trigger] converted_fields(fields)[i]) == (
                fields[i].0,
                converted(fields[i].1),
            ),
    decreases fields.len(),
{
    if fields.len() > 0 {
        lemma_converted_fields(fields.drop_last());
    }
}

impl DataValue {
    /// No map of the value holds a name twice. Conversion from a document
    /// and back keeps this. A value that is built by hand may lack it; of
    /// its fields with the same name only the first counts, in reading by
    /// name and in flattening alike.
    pub open spec fn wf(&self) -> bool {
        names_distinct(self@)
    }

    /// Turns a JSON document into a response value. A document that holds a
    /// `null` or a boolean anywhere is refused with `UnsupportedValue`.
    /// Where no object of the document holds a name twice, no map of the
    /// value does.
    pub fn from_json(json: &JsonValue) -> (result: Result<DataValue, ExchangeError>)
        ensures
            match result {
                Ok(value) => convertible(json@) && value@ == converted(json@) && (json.wf()
                    ==> value.wf()),
                Err(error) => !convertible(json@) && error@ == ErrorView::UnsupportedValue,
            },
        decreases json,
    {
        match json {
            JsonValue::Null => Err(ExchangeError::UnsupportedValue),
            JsonValue::Bool(_) => Err(ExchangeError::UnsupportedValue),
            JsonValue::Number(text) => Ok(DataValue::ValueString(text.clone())),
            JsonValue::Text(text) => Ok(DataValue::ValueString(text.clone())),
            JsonValue::Array(items) => {
                let ghost models = json@->Array_0;
                proof {
                    lemma_json_models(items@);
                    lemma_converted_items(models);
                }
                let mut out: Vec<DataValue> = Vec::new();
                let mut i: usize = 0;
                while i < items.len()
                    invariant
                        i <= items.len(),
                        *json == JsonValue::Array(*items),
                        json@ == JsonModel::Array(models),
                        models.len() == items@.len(),
                        forall|k: int| 0 <= k < items@.len() ==> models[k] == items@[k]@,
                        out@.len() == i,
                        forall|k: int|
                            0 <= k < i ==> convertible(#[trigger] models[k]) && out@[k]@
                                == converted(models[k]),
                    decreases items.len() - i,
                {
                    assert(json->Array_0 == *items);
                    assert(decreases_to!(*items => items[i as int]));
                    match DataValue::from_json(&items[i]) {
                        Ok(value) => {
                            out.push(value);
                        },
                        Err(error) => {
                            proof {
                                lemma_all_convertible(models);
                                assert(!convertible(models[i as int]));
                            }
                            return Err(error);
                        },
                    }
                    i += 1;
                }
                let value = DataValue::ValueVector(out);
                proof {
                    lemma_list_models(out@);
                    lemma_converted_items(models);
                    lemma_all_convertible(models);
                }
                assert(value@->List_0 =~= converted(json@)->List_0);
                proof {
                    if json.wf() {
                        lemma_converted_names(json@);
                    }
                }
                Ok(value)
            },
            JsonValue::Object(fields) => {
                let ghost models = json@->Object_0;
                proof {
                    lemma_json_field_models(fields@);
                }
                let mut out: Vec<(String, DataValue)> = Vec::new();
                let mut i: usize = 0;
                while i < fields.len()
                    invariant
                        i <= fields.len(),
                        *json == JsonValue::Object(*fields),
                        json@ == JsonModel::Object(models),
                        models.len() == fields@.len(),
                        forall|k: int|
                            0 <= k < fields@.len() ==> models[k] == (fields@[k].0@, fields@[k].1@),
                        out@.len() == i,
                        forall|k: int|
                            0 <= k < i ==> convertible((#[trigger] models[k]).1) && out@[k].1@
                                == converted(models[k].1) && out@[k].0@ == models[k].0,
                    decreases fields.len() - i,
                {
                    assert(json->Object_0 == *fields);
                    assert(decreases_to!(*fields => fields[i as int]));
                    match DataValue::from_json(&fields[i].1) {
                        Ok(value) => {
                            out.push((fields[i].0.clone(), value));
                        },
                        Err(error) => {
                            proof {
                                lemma_all_fields_convertible(models);
                                assert(!convertible(models[i as int].1));
                            }
                            return Err(error);
                        },
                    }
                    i += 1;
                }
                let value = DataValue::ValueMap(out);
                proof {
                    lemma_field_models(out@);
                    lemma_converted_fields(models);
                    lemma_all_fields_convertible(models);
                }
                assert(value@->Record_0 =~= converted(json@)->Record_0);
                proof {
                    if json.wf() {
                        lemma_converted_names(json@);
                    }
                }
                Ok(value)
            },
        }
    }

    /// Writes a response value back as a JSON document: maps become objects,
    /// lists become arrays, and every text becomes a JSON string. Where no
    /// map of the value holds a name twice, no object of the document does.
    pub fn to_json(&self) -> (json: JsonValue)
        ensures
            json@ == written(self@),
            self.wf() ==> json.wf(),
        decreases self,
    {
        match self {
            DataValue::ValueString(text) => JsonValue::Text(text.clone()),
            DataValue::ValueVector(items) => {
                let ghost models = self@->List_0;
                proof {
                    lemma_list_models(items@);
                    lemma_written_items(models);
                }
                let mut out: Vec<JsonValue> = Vec::new();
                let mut i: usize = 0;
                while i < items.len()
                    invariant
                        i <= items.len(),
                        *self == DataValue::ValueVector(*items),
                        models.len() == items@.len(),
                        forall|k: int| 0 <= k < items@.len() ==> models[k] == items@[k]@,
                        out@.len() == i,
                        forall|k: int| 0 <= k < i ==> (#[trigger] out@[k])@ == written(models[k]),
                    decreases items.len() - i,
                {
                    assert(self->ValueVector_0 == *items);
                    assert(decreases_to!(*items => items[i as int]));
                    let item = items[i].to_json();
                    out.push(item);
                    i += 1;
                }
                let json = JsonValue::Array(out);
                proof {
                    lemma_json_models(out@);
                }
                assert(json@->Array_0 =~= written(self@)->Array_0);
                proof {
                    if self.wf() {
                        lemma_written_names(self@);
                    }
                }
                json
            },
            DataValue::ValueMap(fields) => {
                let ghost models = self@->Record_0;
                proof {
                    lemma_field_models(fields@);
                    lemma_written_fields(models);
                }
                let mut out: Vec<(String, JsonValue)> = Vec::new();
                let mut i: usize = 0;
                while i < fields.len()
                    invariant
                        i <= fields.len(),
                        *self == DataValue::ValueMap(*fields),
                        models.len() == fields@.len(),
                        forall|k: int|
                            0 <= k < fields@.len() ==> models[k] == (fields@[k].0@, fields@[k].1@),
                        out@.len() == i,
                        forall|k: int|
                            0 <= k < i ==> (#[trigger] out@[k]).1@ == written(models[k].1)
                                && out@[k].0@ == models[k].0,
                    decreases fields.len() - i,
                {
                    assert(self->ValueMap_0 == *fields);
                    assert(decreases_to!(*fields => fields[i as int]));
                    let item = fields[i].1.to_json();
                    out.push((fields[i].0.clone(), item));
                    i += 1;
                }
                let json = JsonValue::Object(out);
                proof {
                    lemma_json_field_models(out@);
                }
                assert(json@->Object_0 =~= written(self@)->Object_0);
                proof {
                    if self.wf() {
                        lemma_written_names(self@);
                    }
                }
                json
            },
        }
    }

    /// The text that the value is. Any other shape is a `TypeMismatch`.
    pub fn as_text(&self) -> (result: Result<&String, ExchangeError>)
        ensures
            match result {
                Ok(text) => self@ == DataModel::Text(text@),
                Err(error) => !(self@ is Text) && error@ == ErrorView::TypeMismatch,
            },
    {
        match self {
            DataValue::ValueString(text) => Ok(text),
            _ => Err(ExchangeError::TypeMismatch),
        }
    }

    /// The items of the list that the value is. Any other shape is a
    /// `TypeMismatch`.
    pub fn as_list(&self) -> (result: Result<&Vec<DataValue>, ExchangeError>)
        ensures
            match result {
                Ok(items) => self@ == DataModel::List(list_models(items@)),
                Err(error) => !(self@ is List) && error@ == ErrorView::TypeMismatch,
            },
    {
        match self {
            DataValue::ValueVector(items) => Ok(items),
            _ => Err(ExchangeError::TypeMismatch),
        }
    }

    /// The value of the field `key` of the map that the value is. A value of
    /// another shape is a `TypeMismatch`; a map without the field is a
    /// `FieldNotFound` that names the field.
    pub fn get(&self, key: &str) -> (result: Result<&DataValue, ExchangeError>)
        ensures
            match result {
                Ok(value) => self@ is Record && lookup(self@->Record_0, key@) == Some(value@),
                Err(error) => error@ == field_failure(self@, key@),
            },
            result is Err <==> !(self@ is Record) || lookup(self@->Record_0, key@) is None,
    {
        match self {
            DataValue::ValueMap(fields) => {
                let ghost models = self@->Record_0;
                proof {
                    lemma_field_models(fields@);
                }
                let mut i: usize = 0;
                while i < fields.len()
                    invariant
                        i <= fields.len(),
                        models.len() == fields@.len(),
                        forall|k: int|
                            0 <= k < fields@.len() ==> models[k] == (fields@[k].0@, fields@[k].1@),
                        forall|k: int| 0 <= k < i ==> models[k].0 != key@,
                        self@ == DataModel::Record(models),
                    decreases fields.len() - i,
                {
                    if str_eq(fields[i].0.as_str(), key) {
                        proof {
                            lemma_position_is(models, key@, i as int);
                        }
                        return Ok(&fields[i].1);
                    }
                    i += 1;
                }
                proof {
                    lemma_position_is(models, key@, i as int);
                }
                Err(ExchangeError::FieldNotFound { field: key.to_owned() })
            },
            _ => Err(ExchangeError::TypeMismatch),
        }
    }

    /// The fields of the map that hold text, as a mapping from their names to
    /// their texts; fields of another shape are left out. A value that is no
    /// map is a `TypeMismatch`.
    pub fn string_fields(&self) -> (result: Result<StringMap, ExchangeError>)
        ensures
            match result {
                Ok(record) => self@ is Record && record@ == text_fields(self@->Record_0)
                    && record.wf(),
                Err(error) => !(self@ is Record) && error@ == ErrorView::TypeMismatch,
            },
    {
        match self {
            DataValue::ValueMap(fields) => {
                let ghost models = self@->Record_0;
                proof {
                    lemma_field_models(fields@);
                }
                let mut record = StringMap::new();
                let mut i: usize = 0;
                assert(models.take(0) =~= Seq::empty());
                while i < fields.len()
                    invariant
                        i <= fields.len(),
                        models.len() == fields@.len(),
                        forall|k: int|
                            0 <= k < fields@.len() ==> models[k] == (fields@[k].0@, fields@[k].1@),
                        record@ == text_fields(models.take(i as int)),
                        record.wf(),
                    decreases fields.len() - i,
                {
                    proof {
                        let next = models.take(i as int + 1);
                        assert(next.drop_last() =~= models.take(i as int));
                        assert(next.last() == models[i as int]);
                    }
                    match &fields[i].1 {
                        DataValue::ValueString(text) => {
                            let seen = name_occurs_before(fields, i, fields[i].0.as_str());
                            proof {
                                let name = fields@[i as int].0@;
                                if seen {
                                    let k = choose|k: int|
                                        0 <= k < i && (#[trigger] fields@[k]).0@ == name;
                                    assert(models[k].0 == models[i as int].0);
                                } else {
                                    assert forall|k: int| 0 <= k < i implies (
                                    #[trigger] models[k]).0 != models[i as int].0 by {
                                        assert(fields@[k].0@ != name);
                                    }
                                }
                                lemma_seen(models, i as int, seen);
                            }
                            if !seen {
                                record.insert(fields[i].0.clone(), text.clone());
                            }
                        },
                        _ => {},
                    }
                    i += 1;
                }
                assert(models.take(i as int) =~= models);
                Ok(record)
            },
            _ => Err(ExchangeError::TypeMismatch),
        }
    }

    /// The fields of the map as a mapping from their names to their texts,
    /// where every field holds text. A value that is no map, or a field of
    /// another shape, is a `TypeMismatch`.
    pub fn all_string_fields(&self) -> (result: Result<StringMap, ExchangeError>)
        ensures
            match result {
                Ok(record) => self@ is Record && all_text(self@->Record_0) && record@
                    == text_fields(self@->Record_0) && record.wf(),
                Err(error) => !(self@ is Record && all_text(self@->Record_0)) && error@
                    == ErrorView::TypeMismatch,
            },
    {
        match self {
            DataValue::ValueMap(fields) => {
                let ghost models = self@->Record_0;
                proof {
                    lemma_field_models(fields@);
                }
                let mut record = StringMap::new();
                let mut i: usize = 0;
                assert(models.take(0) =~= Seq::empty());
                while i < fields.len()
                    invariant
                        i <= fields.len(),
                        models.len() == fields@.len(),
                        forall|k: int|
                            0 <= k < fields@.len() ==> models[k] == (fields@[k].0@, fields@[k].1@),
                        forall|k: int| 0 <= k < i ==> (#[trigger] models[k]).1 is Text,
                        self@ == DataModel::Record(models),
                        record@ == text_fields(models.take(i as int)),
                        record.wf(),
                    decreases fields.len() - i,
                {
                    proof {
                        let next = models.take(i as int + 1);
                        assert(next.drop_last() =~= models.take(i as int));
                        assert(next.last() == models[i as int]);
                    }
                    match &fields[i].1 {
                        DataValue::ValueString(text) => {
                            let seen = name_occurs_before(fields, i, fields[i].0.as_str());
                            proof {
                                let name = fields@[i as int].0@;
                                if seen {
                                    let k = choose|k: int|
                                        0 <= k < i && (#[trigger] fields@[k]).0@ == name;
                                    assert(models[k].0 == models[i as int].0);
                                } else {
                                    assert forall|k: int| 0 <= k < i implies (
                                    #[trigger] models[k]).0 != models[i as int].0 by {
                                        assert(fields@[k].0@ != name);
                                    }
                                }
                                lemma_seen(models, i as int, seen);
                            }
                            if !seen {
                                record.insert(fields[i].0.clone(), text.clone());
                            }
                        },
                        _ => {
                            assert(!(models[i as int].1 is Text));
                            return Err(ExchangeError::TypeMismatch);
                        },
                    }
                    i += 1;
                }
                assert(models.take(i as int) =~= models);
                Ok(record)
            },
            _ => Err(ExchangeError::TypeMismatch),
        }
    }
}

/// Why the field `key` cannot be read from `value`: the value is no map, or
/// the map has no such field.
pub open spec fn field_failure(value: DataModel, key: Seq<char>) -> ErrorView {
    if value is Record {
        ErrorView::FieldNotFound { field: key }
    } else {
        ErrorView::TypeMismatch
    }
}

/// Every field holds text.
pub open spec fn all_text(fields: Seq<(Seq<char>, DataModel)>) -> bool {
    forall|i: int| 0 <= i < fields.len() ==> (#[trigger] fields[i]).1 is Text
}

/// The mapping from the names of the fields that hold text to their texts,
/// in the order of the fields. Of fields with the same name only the first
/// counts, as it does in reading by name.
pub open spec fn text_fields(fields: Seq<(Seq<char>, DataModel)>) -> Seq<(Seq<char>, Seq<char>)>
    decreases fields.len(),
{
    if fields.len() == 0 {
        Seq::empty()
    } else {
        let front = fields.drop_last();
        let rest = text_fields(front);
        match fields.last().1 {
            DataModel::Text(text) => if lookup(front, fields.last().0) is None {
                rest.push((fields.last().0, text))
            } else {
                rest
            },
            _ => rest,
        }
    }
}

/// Every value is a map.
pub open spec fn all_records(items: Seq<DataModel>) -> bool {
    forall|i: int| 0 <= i < items.len() ==> (#[trigger] items[i]) is Record
}

/// The mappings that a list of records holds, as mathematical values.
pub open spec fn record_views(records: Seq<StringMap>) -> Seq<Seq<(Seq<char>, Seq<char>)>> {
    Seq::new(records.len(), |i: int| records[i]@)
}

/// Each map of a list, flattened to its text fields.
pub open spec fn flattened(items: Seq<DataModel>) -> Seq<Seq<(Seq<char>, Seq<char>)>> {
    Seq::new(items.len(), |i: int| text_fields(items[i]->Record_0))
}

/// A list of maps as records; a list that holds anything else is a
/// `TypeMismatch`.
pub open spec fn records_of(items: Seq<DataModel>) -> Result<
    Seq<Seq<(Seq<char>, Seq<char>)>>,
    ErrorView,
> {
    if all_records(items) {
        Ok(flattened(items))
    } else {
        Err(ErrorView::TypeMismatch)
    }
}

/// A map as a record; anything else is a `TypeMismatch`.
pub open spec fn record_of(value: DataModel) -> Result<Seq<(Seq<char>, Seq<char>)>, ErrorView> {
    match value {
        DataModel::Record(fields) => Ok(text_fields(fields)),
        _ => Err(ErrorView::TypeMismatch),
    }
}

/// Flattening agrees with reading by name: a record holds, under each name,
/// the text that the map holds there, and nothing under a name that holds
/// no text.
pub proof fn lemma_text_fields_lookup(fields: Seq<(Seq<char>, DataModel)>, key: Seq<char>)
    ensures
        lookup(text_fields(fields), key) == match lookup(fields, key) {
            Some(DataModel::Text(text)) => Some(text),
            _ => None,
        },
    decreases fields.len(),
{
    if fields.len() > 0 {
        let front = fields.drop_last();
        let last = fields.last();
        assert(fields =~= front.push(last));
        lemma_text_fields_lookup(front, key);
        lemma_text_fields_lookup(front, last.0);
        lemma_lookup_push(front, last, key);
        match last.1 {
            DataModel::Text(text) => {
                if lookup(front, last.0) is None {
                    lemma_lookup_push(text_fields(front), (last.0, text), key);
                }
            },
            _ => {},
        }
    }
}

/// The text fields of a map have distinct names.
pub proof fn lemma_text_fields_distinct(fields: Seq<(Seq<char>, DataModel)>)
    ensures
        distinct_keys(text_fields(fields)),
    decreases fields.len(),
{
    if fields.len() > 0 {
        let front = fields.drop_last();
        let last = fields.last();
        lemma_text_fields_distinct(front);
        lemma_text_fields_lookup(front, last.0);
        lemma_position(text_fields(front), last.0);
    }
}

/// A name that one of the first `i` fields has is a name that those fields
/// hold something for; and where they hold nothing for it, neither does
/// their record.
proof fn lemma_seen(models: Seq<(Seq<char>, DataModel)>, i: int, seen: bool)
    requires
        0 <= i < models.len(),
        seen <==> exists|k: int| 0 <= k < i && (#[trigger] models[k]).0 == models[i].0,
    ensures
        seen <==> lookup(models.take(i), models[i].0) is Some,
        !seen ==> lookup(text_fields(models.take(i)), models[i].0) is None,
{
    let front = models.take(i);
    let name = models[i].0;
    lemma_lookup_is_some(front, name);
    lemma_text_fields_lookup(front, name);
    if seen {
        let k = choose|k: int| 0 <= k < i && (#[trigger] models[k]).0 == name;
        assert(front[k] == models[k]);
    } else {
        assert forall|k: int| 0 <= k < front.len() implies (#[trigger] front[k]).0 != name by {
            assert(front[k] == models[k]);
        }
    }
}

/// Whether no map of a value, at any depth, holds a name twice.
pub open spec fn names_distinct(value: DataModel) -> bool
    decreases value,
{
    match value {
        DataModel::Text(_) => true,
        DataModel::List(items) => list_names_distinct(items),
        DataModel::Record(fields) => distinct_keys(fields) && record_names_distinct(fields),
    }
}

/// `names_distinct` of every item of a list.
pub open spec fn list_names_distinct(items: Seq<DataModel>) -> bool
    decreases items,
{
    items.len() == 0 || (list_names_distinct(items.drop_last()) && names_distinct(items.last()))
}

/// `names_distinct` of what every field of a map holds.
pub open spec fn record_names_distinct(fields: Seq<(Seq<char>, DataModel)>) -> bool
    decreases fields,
{
    fields.len() == 0 || (record_names_distinct(fields.drop_last()) && names_distinct(
        fields.last().1,
    ))
}

/// No map in a list holds a name twice just when none in any of its items
/// does.
pub proof fn lemma_list_names_distinct(items: Seq<DataModel>)
    ensures
        list_names_distinct(items) <==> forall|i: int|
            0 <= i < items.len() ==> names_distinct(#[trigger] items[i]),
    decreases items.len(),
{
    if items.len() > 0 {
        let front = items.drop_last();
        lemma_list_names_distinct(front);
        if list_names_distinct(items) {
            assert forall|i: int| 0 <= i < items.len() implies names_distinct(
                #[trigger] items[i],
            ) by {
                if i < front.len() {
                    assert(front[i] == items[i]);
                }
            }
        } else if names_distinct(items.last()) {
            let k = choose|k: int| 0 <= k < front.len() && !names_distinct(#[trigger] front[k]);
            assert(front[k] == items[k]);
        }
    }
}

/// Converting a document in which no object holds a name twice gives a
/// value in which no map does.
pub proof fn lemma_converted_names(json: JsonModel)
    requires
        convertible(json),
        json_names_distinct(json),
    ensures
        names_distinct(converted(json)),
    decreases json,
{
    match json {
        JsonModel::Array(items) => {
            lemma_converted_items_names(items);
        },
        JsonModel::Object(fields) => {
            lemma_converted_fields_names(fields);
            lemma_converted_fields(fields);
            assert(distinct_keys(converted_fields(fields))) by {
                assert forall|i: int, j: int|
                    0 <= i < j < converted_fields(fields).len() implies converted_fields(
                    fields,
                )[i].0 != converted_fields(fields)[j].0 by {
                    assert(converted_fields(fields)[i].0 == fields[i].0);
                    assert(converted_fields(fields)[j].0 == fields[j].0);
                }
            }
        },
        _ => {},
    }
}

/// The law of `lemma_converted_names`, for the items of an array.
pub proof fn lemma_converted_items_names(items: Seq<JsonModel>)
    requires
        all_convertible(items),
        items_names_distinct(items),
    ensures
        list_names_distinct(converted_items(items)),
    decreases items,
{
    if items.len() > 0 {
        let front = items.drop_last();
        lemma_converted_items_names(front);
        lemma_converted_names(items.last());
        assert(converted_items(items).drop_last() =~= converted_items(front));
    }
}

/// The law of `lemma_converted_names`, for the fields of an object.
pub proof fn lemma_converted_fields_names(fields: Seq<(Seq<char>, JsonModel)>)
    requires
        all_fields_convertible(fields),
        fields_names_distinct(fields),
    ensures
        record_names_distinct(converted_fields(fields)),
    decreases fields,
{
    if fields.len() > 0 {
        let front = fields.drop_last();
        lemma_converted_fields_names(front);
        lemma_converted_names(fields.last().1);
        assert(converted_fields(fields).drop_last() =~= converted_fields(front));
    }
}

/// Writing a value in which no map holds a name twice gives a document in
/// which no object does.
pub proof fn lemma_written_names(value: DataModel)
    requires
        names_distinct(value),
    ensures
        json_names_distinct(written(value)),
    decreases value,
{
    match value {
        DataModel::Text(_) => {},
        DataModel::List(items) => {
            lemma_written_items_names(items);
        },
        DataModel::Record(fields) => {
            lemma_written_fields_names(fields);
            lemma_written_fields(fields);
            assert(distinct_keys(written_fields(fields))) by {
                assert forall|i: int, j: int|
                    0 <= i < j < written_fields(fields).len() implies written_fields(fields)[i].0
                    != written_fields(fields)[j].0 by {
                    assert(written_fields(fields)[i].0 == fields[i].0);
                    assert(written_fields(fields)[j].0 == fields[j].0);
                }
            }
        },
    }
}

/// The law of `lemma_written_names`, for the items of a list.
pub proof fn lemma_written_items_names(items: Seq<DataModel>)
    requires
        list_names_distinct(items),
    ensures
        items_names_distinct(written_items(items)),
    decreases items,
{
    if items.len() > 0 {
        let front = items.drop_last();
        lemma_written_items_names(front);
        lemma_written_names(items.last());
        assert(written_items(items).drop_last() =~= written_items(front));
    }
}

/// The law of `lemma_written_names`, for the fields of a map.
pub proof fn lemma_written_fields_names(fields: Seq<(Seq<char>, DataModel)>)
    requires
        record_names_distinct(fields),
    ensures
        fields_names_distinct(written_fields(fields)),
    decreases fields,
{
    if fields.len() > 0 {
        let front = fields.drop_last();
        lemma_written_fields_names(front);
        lemma_written_names(fields.last().1);
        assert(written_fields(fields).drop_last() =~= written_fields(front));
    }
}

/// The JSON document that writes a response value.
pub open spec fn written(value: DataModel) -> JsonModel
    decreases value,
{
    match value {
        DataModel::Text(text) => JsonModel::Text(text),
        DataModel::List(items) => JsonModel::Array(written_items(items)),
        DataModel::Record(fields) => JsonModel::Object(written_fields(fields)),
    }
}

/// The documents of the items of a list, in order.
pub open spec fn written_items(items: Seq<DataModel>) -> Seq<JsonModel>
    decreases items,
{
    if items.len() == 0 {
        Seq::empty()
    } else {
        written_items(items.drop_last()).push(written(items.last()))
    }
}

/// The fields of a map with their documents, in order and under their names.
pub open spec fn written_fields(fields: Seq<(Seq<char>, DataModel)>) -> Seq<
    (Seq<char>, JsonModel),
>
    decreases fields,
{
    if fields.len() == 0 {
        Seq::empty()
    } else {
        written_fields(fields.drop_last()).push((fields.last().0, written(fields.last().1)))
    }
}

/// The written items are as many as the items, each written at its place.
pub proof fn lemma_written_items(items: Seq<DataModel>)
    ensures
        written_items(items).len() == items.len(),
        forall|i: int|
            0 <= i < items.len() ==> (#[trigger] written_items(items)[i]) == written(items[i]),
    decreases items.len(),
{
    if items.len() > 0 {
        lemma_written_items(items.drop_last());
    }
}

/// The written fields are as many as the fields, each written at its place
/// and under its name.
pub proof fn lemma_written_fields(fields: Seq<(Seq<char>, DataModel)>)
    ensures
        written_fields(fields).len() == fields.len(),
        forall|i: int|
            0 <= i < fields.len() ==> (#[trigger] written_fields(fields)[i]) == (
                fields[i].0,
                written(fields[i].1),
            ),
    decreases fields.len(),
{
    if fields.len() > 0 {
        lemma_written_fields(fields.drop_last());
    }
}

/// A document with each of its numbers replaced by the JSON string of the
/// same text. Its objects, arrays and strings are as in the document.
pub open spec fn numbers_as_text(json: JsonModel) -> JsonModel
    decreases json,
{
    match json {
        JsonModel::Number(text) => JsonModel::Text(text),
        JsonModel::Array(items) => JsonModel::Array(items_numbers_as_text(items)),
        JsonModel::Object(fields) => JsonModel::Object(fields_numbers_as_text(fields)),
        other => other,
    }
}

/// `numbers_as_text` of each item of an array.
pub open spec fn items_numbers_as_text(items: Seq<JsonModel>) -> Seq<JsonModel>
    decreases items,
{
    if items.len() == 0 {
        Seq::empty()
    } else {
        items_numbers_as_text(items.drop_last()).push(numbers_as_text(items.last()))
    }
}

/// `numbers_as_text` of what each field of an object holds.
pub open spec fn fields_numbers_as_text(fields: Seq<(Seq<char>, JsonModel)>) -> Seq<
    (Seq<char>, JsonModel),
>
    decreases fields,
{
    if fields.len() == 0 {
        Seq::empty()
    } else {
        fields_numbers_as_text(fields.drop_last()).push(
            (fields.last().0, numbers_as_text(fields.last().1)),
        )
    }
}

/// Writing a response value as a document and converting that document gives
/// the value back: every written document can be converted, and nothing is
/// lost on the way.
pub proof fn lemma_write_then_convert(value: DataModel)
    ensures
        convertible(written(value)),
        converted(written(value)) == value,
    decreases value,
{
    match value {
        DataModel::Text(_) => {},
        DataModel::List(items) => {
            lemma_write_then_convert_items(items);
        },
        DataModel::Record(fields) => {
            lemma_write_then_convert_fields(fields);
        },
    }
}

/// The law of `lemma_write_then_convert`, for the items of a list.
pub proof fn lemma_write_then_convert_items(items: Seq<DataModel>)
    ensures
        all_convertible(written_items(items)),
        converted_items(written_items(items)) == items,
    decreases items,
{
    if items.len() > 0 {
        let front = items.drop_last();
        lemma_write_then_convert_items(front);
        lemma_write_then_convert(items.last());
        let w = written_items(items);
        assert(w.drop_last() =~= written_items(front));
        assert(converted_items(w) =~= items);
    }
}

/// The law of `lemma_write_then_convert`, for the fields of a map.
pub proof fn lemma_write_then_convert_fields(fields: Seq<(Seq<char>, DataModel)>)
    ensures
        all_fields_convertible(written_fields(fields)),
        converted_fields(written_fields(fields)) == fields,
    decreases fields,
{
    if fields.len() > 0 {
        let front = fields.drop_last();
        lemma_write_then_convert_fields(front);
        lemma_write_then_convert(fields.last().1);
        let w = written_fields(fields);
        assert(w.drop_last() =~= written_fields(front));
        assert(converted_fields(w) =~= fields);
    }
}

/// Converting a document and writing the value back gives the document
/// again, but for its numbers, which come back as strings of the same text:
/// the objects, arrays and strings of a response survive the round trip.
pub proof fn lemma_convert_then_write(json: JsonModel)
    requires
        convertible(json),
    ensures
        written(converted(json)) == numbers_as_text(json),
    decreases json,
{
    match json {
        JsonModel::Array(items) => {
            lemma_convert_then_write_items(items);
        },
        JsonModel::Object(fields) => {
            lemma_convert_then_write_fields(fields);
        },
        _ => {},
    }
}

/// The law of `lemma_convert_then_write`, for the items of an array.
pub proof fn lemma_convert_then_write_items(items: Seq<JsonModel>)
    requires
        all_convertible(items),
    ensures
        written_items(converted_items(items)) == items_numbers_as_text(items),
    decreases items,
{
    if items.len() > 0 {
        let front = items.drop_last();
        lemma_convert_then_write_items(front);
        lemma_convert_then_write(items.last());
        let c = converted_items(items);
        assert(c.drop_last() =~= converted_items(front));
    }
}

/// The law of `lemma_convert_then_write`, for the fields of an object.
pub proof fn lemma_convert_then_write_fields(fields: Seq<(Seq<char>, JsonModel)>)
    requires
        all_fields_convertible(fields),
    ensures
        written_fields(converted_fields(fields)) == fields_numbers_as_text(fields),
    decreases fields,
{
    if fields.len() > 0 {
        let front = fields.drop_last();
        lemma_convert_then_write_fields(front);
        lemma_convert_then_write(fields.last().1);
        let c = converted_fields(fields);
        assert(c.drop_last() =~= converted_fields(front));
    }
}

} // verus!
