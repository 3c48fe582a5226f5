//! The settings of one account, picked from the text of a configuration.
//!
//! A configuration is a JSON array of accounts. Each account is an object
//! with a `name`; its settings are its fields that hold a string.

use crate::error::{outcome, ErrorView, ExchangeError};
use crate::json::{
    json_document, json_field, lemma_json_field_models, lemma_json_models, parse_json, JsonModel,
    JsonValue,
};
use crate::string_map::{
    lemma_lookup_is_some, lemma_lookup_push, lookup, name_occurs_before, StringMap,
};
use crate::text::str_eq;
use vstd::prelude::*;

verus! {

/// Whether a document is the account of the given name.
pub open spec fn is_account(json: JsonModel, name: Seq<char>) -> bool {
    json is Object && json_field(json, "name"@) == Some(JsonModel::Text(name))
}

/// The index of the first account of the given name, or the number of
/// accounts if there is none.
pub open spec fn account_index(accounts: Seq<JsonModel>, name: Seq<char>) -> int
    decreases accounts.len(),
{
    if accounts.len() == 0 {
        0
    } else if is_account(accounts[0], name) {
        0
    } else {
        1 + account_index(accounts.drop_first(), name)
    }
}

/// The fields that hold a string, as a mapping from their names to their
/// strings, in the order of the fields. Of fields with the same name only
/// the first counts, as it does in reading by name.
pub open spec fn string_settings(fields: Seq<(Seq<char>, JsonModel)>) -> Seq<
    (Seq<char>, Seq<char>),
>
    decreases fields.len(),
{
    if fields.len() == 0 {
        Seq::empty()
    } else {
        let front = fields.drop_last();
        let rest = string_settings(front);
        match fields.last().1 {
            JsonModel::Text(text) => if lookup(front, fields.last().0) is None {
                rest.push((fields.last().0, text))
            } else {
                rest
            },
            _ => rest,
        }
    }
}

/// What reading a configuration comes to, given what the parser made of its
/// text: the string settings of the first account of the given name. A text
/// that is no JSON is a `MalformedResponse` that carries the text; a
/// document that is no array is a `TypeMismatch`; where no account has the
/// name, the name is reported as not found.
pub open spec fn configs_outcome(
    parsed: Result<JsonModel, Seq<char>>,
    text: Seq<char>,
    name: Seq<char>,
) -> Result<Seq<(Seq<char>, Seq<char>)>, ErrorView> {
    match parsed {
        Err(message) => Err(ErrorView::MalformedResponse { body: text, message }),
        Ok(JsonModel::Array(accounts)) => {
            let i = account_index(accounts, name);
            if i < accounts.len() {
                Ok(string_settings(accounts[i]->Object_0))
            } else {
                Err(ErrorView::FieldNotFound { field: name })
            }
        },
        Ok(_) => Err(ErrorView::TypeMismatch),
    }
}

/// An index at which the account stands, and before which it does not, is
/// the index of the account; so is the length where it stands nowhere.
pub proof fn lemma_account_index(accounts: Seq<JsonModel>, name: Seq<char>, i: int)
    requires
        0 <= i <= accounts.len(),
        forall|j: int| 0 <= j < i ==> !is_account(#[trigger] accounts[j], name),
        i < accounts.len() ==> is_account(accounts[i], name),
    ensures
        account_index(accounts, name) == i,
    decreases accounts.len(),
{
    if accounts.len() > 0 && i > 0 {
        let rest = accounts.drop_first();
        assert(!is_account(accounts[0], name));
        assert forall|j: int| 0 <= j < i - 1 implies !is_account(#[trigger] rest[j], name) by {
            assert(rest[j] == accounts[j + 1]);
        }
        lemma_account_index(rest, name, i - 1);
    }
}

/// The settings agree with reading by name: they hold, under each name,
/// the string that the account holds there, and nothing under a name that
/// holds no string.
pub proof fn lemma_string_settings_lookup(fields: Seq<(Seq<char>, JsonModel)>, key: Seq<char>)
    ensures
        lookup(string_settings(fields), key) == match lookup(fields, key) {
            Some(JsonModel::Text(text)) => Some(text),
            _ => None,
        },
    decreases fields.len(),
{
    if fields.len() > 0 {
        let front = fields.drop_last();
        let last = fields.last();
        assert(fields =~= front.push(last));
        lemma_string_settings_lookup(front, key);
        lemma_string_settings_lookup(front, last.0);
        lemma_lookup_push(front, last, key);
        match last.1 {
            JsonModel::Text(text) => {
                if lookup(front, last.0) is None {
                    lemma_lookup_push(string_settings(front), (last.0, text), key);
                }
            },
            _ => {},
        }
    }
}

/// The settings of the account of a name hold that name under `name`.
pub proof fn lemma_settings_hold_the_name(json: JsonModel, name: Seq<char>)
    requires
        is_account(json, name),
    ensures
        lookup(string_settings(json->Object_0), "name"@) == Some(name),
{
    lemma_string_settings_lookup(json->Object_0, "name"@);
}

/// A name that one of the first `i` fields has is a name that those fields
/// hold something for; and where they hold nothing for it, neither do their
/// settings.
proof fn lemma_seen(models: Seq<(Seq<char>, JsonModel)>, i: int, seen: bool)
    requires
        0 <= i < models.len(),
        seen <==> exists|k: int| 0 <= k < i && (#[trigger] models[k]).0 == models[i].0,
    ensures
        seen <==> lookup(models.take(i), models[i].0) is Some,
        !seen ==> lookup(string_settings(models.take(i)), models[i].0) is None,
{
    let front = models.take(i);
    let name = models[i].0;
    lemma_lookup_is_some(front, name);
    lemma_string_settings_lookup(front, name);
    if seen {
        let k = choose|k: int| 0 <= k < i && (#[trigger] models[k]).0 == name;
        assert(front[k] == models[k]);
    } else {
        assert forall|k: int| 0 <= k < front.len() implies (#[trigger] front[k]).0 != name by {
            assert(front[k] == models[k]);
        }
    }
}

/// Whether a document is the account of the given name.
fn names_account(json: &JsonValue, name: &str) -> (b: bool)
    ensures
        b == is_account(json@, name@),
{
    match json {
        JsonValue::Object(_) => match json.field("name") {
            Some(JsonValue::Text(text)) => str_eq(text.as_str(), name),
            _ => false,
        },
        _ => false,
    }
}

/// The string settings of an account.
fn settings_of(fields: &Vec<(String, JsonValue)>) -> (settings: StringMap)
    ensures
        settings@ == string_settings(crate::json::json_field_models(fields@)),
        settings.wf(),
{
    let ghost models = crate::json::json_field_models(fields@);
    proof {
        lemma_json_field_models(fields@);
    }
    let mut settings = StringMap::new();
    let mut i: usize = 0;
    assert(models.take(0) =~= Seq::empty());
    while i < fields.len()
        invariant
            i <= fields.len(),
            models.len() == fields@.len(),
            forall|k: int|
                0 <= k < fields@.len() ==> models[k] == (fields@[k].0@, fields@[k].1@),
            settings@ == string_settings(models.take(i as int)),
            settings.wf(),
        decreases fields.len() - i,
    {
        proof {
            let next = models.take(i as int + 1);
            assert(next.drop_last() =~= models.take(i as int));
            assert(next.last() == models[i as int]);
        }
        match &fields[i].1 {
            JsonValue::Text(text) => {
                let seen = name_occurs_before(fields, i, fields[i].0.as_str());
                proof {
                    let name = fields@[i as int].0@;
                    if seen {
                        let k = choose|k: int| 0 <= k < i && (#[trigger] fields@[k]).0@ == name;
                        assert(models[k].0 == models[i as int].0);
                    } else {
                        assert forall|k: int| 0 <= k < i implies (#[trigger] models[k]).0
                            != models[i as int].0 by {
                            assert(fields@[k].0@ != name);
                        }
                    }
                    lemma_seen(models, i as int, seen);
                }
                if !seen {
                    settings.insert(fields[i].0.clone(), text.clone());
                }
            },
            _ => {},
        }
        i += 1;
    }
    assert(models.take(i as int) =~= models);
    settings
}

/// Picks the settings of the account `account_name` from a parsed
/// configuration.
pub fn select_account(
    parsed: Result<JsonValue, String>,
    config_data: &str,
    account_name: &str,
) -> (result: Result<StringMap, ExchangeError>)
    ensures
        outcome(result) == configs_outcome(
            match parsed {
                Ok(json) => Ok(json@),
                Err(message) => Err(message@),
            },
            config_data@,
            account_name@,
        ),
{
    let json = match parsed {
        Ok(json) => json,
        Err(message) => {
            return Err(
                ExchangeError::MalformedResponse { body: config_data.to_owned(), message },
            );
        },
    };
    let accounts = match &json {
        JsonValue::Array(accounts) => accounts,
        _ => {
            return Err(ExchangeError::TypeMismatch);
        },
    };
    let ghost models = json@->Array_0;
    proof {
        lemma_json_models(accounts@);
    }
    let mut i: usize = 0;
    while i < accounts.len()
        invariant
            i <= accounts.len(),
            parsed == Ok::<JsonValue, String>(json),
            json@ == JsonModel::Array(models),
            models.len() == accounts@.len(),
            forall|k: int| 0 <= k < accounts@.len() ==> models[k] == accounts@[k]@,
            forall|k: int| 0 <= k < i ==> !is_account(#[trigger] models[k], account_name@),
        decreases accounts.len() - i,
    {
        if names_account(&accounts[i], account_name) {
            proof {
                lemma_account_index(models, account_name@, i as int);
            }
            match &accounts[i] {
                JsonValue::Object(fields) => {
                    assert(models[i as int]->Object_0 == crate::json::json_field_models(
                        fields@,
                    ));
                    return Ok(settings_of(fields));
                },
                _ => {
                    return Err(ExchangeError::TypeMismatch);
                },
            }
        }
        i += 1;
    }
    proof {
        lemma_account_index(models, account_name@, i as int);
    }
    Err(ExchangeError::FieldNotFound { field: account_name.to_owned() })
}

/// Reads the settings of the account `account_name` from the text of a
/// configuration.
pub fn read_configs(config_data: &str, account_name: &str) -> (result: Result<
    StringMap,
    ExchangeError,
>)
    ensures
        outcome(result) == configs_outcome(
            json_document(config_data@),
            config_data@,
            account_name@,
        ),
{
    select_account(parse_json(config_data), config_data, account_name)
}

} // verus!
