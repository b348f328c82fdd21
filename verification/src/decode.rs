//! From a JSON document to manufacturer records.
//!
//! The registry answers with an object whose member `Results` is an array of
//! objects, one for each manufacturer. A document of any other shape is
//! rejected as a whole: no entry is skipped.

use crate::json::{content, contents, member, Json};
use crate::record::{field_view, Manufacturer, Record};
use serde_json::Value;
use vstd::prelude::*;

verus! {

/// Why a document could not be decoded.
#[derive(Clone, Copy, Debug, PartialEq, Eq, Structural)]
pub enum DecodeError {
    /// The bytes are not a JSON document.
    InvalidJson,
    /// The document is not an object with a member `Results`.
    MissingResults,
    /// The member `Results` is not an array.
    ResultsNotArray,
    /// An entry of `Results` is not an object.
    EntryNotObject,
    /// An entry lacks one of the three members that make a record.
    MissingField,
}

/// The member that lists the manufacturers.
pub open spec fn results_key() -> Seq<char> {
    "Results"@
}

/// The member of an entry that holds the official name.
pub open spec fn name_key() -> Seq<char> {
    "Mfr_Name"@
}

/// The member of an entry that holds the common name.
pub open spec fn common_name_key() -> Seq<char> {
    "Mfr_CommonName"@
}

/// The member of an entry that holds the country.
pub open spec fn country_key() -> Seq<char> {
    "Country"@
}

/// A member read as a record field: its text where it is a string; absent
/// where it is `null` or of any other kind.
pub open spec fn field_of(value: Json) -> Option<Seq<char>> {
    match value {
        Json::Text(s) => Some(s),
        _ => None,
    }
}

/// The record that an entry stands for, or why it stands for none.
pub open spec fn record_of(entry: Json) -> Result<Record, DecodeError> {
    if !(entry is Object) {
        Err(DecodeError::EntryNotObject)
    } else if !(entry.has_member(country_key()) && entry.has_member(common_name_key())
        && entry.has_member(name_key())) {
        Err(DecodeError::MissingField)
    } else {
        Ok(
            Record {
                name: field_of(entry.member(name_key())),
                common_name: field_of(entry.member(common_name_key())),
                country: field_of(entry.member(country_key())),
            },
        )
    }
}

/// The entry at `at` stands for no record, and every entry before it does.
pub open spec fn first_malformed(entries: Seq<Json>, at: int) -> bool {
    &&& 0 <= at < entries.len()
    &&& record_of(entries[at]) is Err
    &&& forall|i: int| 0 <= i < at ==> (#[trigger] record_of(entries[i])) is Ok
}

/// The records of a list of entries, in order; or, where some entry stands
/// for none, the error of the first such entry.
pub open spec fn records_of(entries: Seq<Json>) -> Result<Seq<Record>, DecodeError> {
    if exists|at: int| first_malformed(entries, at) {
        let at = choose|at: int| first_malformed(entries, at);
        Err(record_of(entries[at])->Err_0)
    } else {
        Ok(entries.map_values(|entry: Json| record_of(entry)->Ok_0))
    }
}

/// The records that a document lists, or why it lists none.
pub open spec fn decoded(document: Json) -> Result<Seq<Record>, DecodeError> {
    if !document.has_member(results_key()) {
        Err(DecodeError::MissingResults)
    } else {
        match document.member(results_key()) {
            Json::Array(entries) => records_of(entries),
            _ => Err(DecodeError::ResultsNotArray),
        }
    }
}

/// The records of a listing that may be no JSON document at all, which
/// `None` stands for.
pub open spec fn decoded_from(document: Option<Json>) -> Result<Seq<Record>, DecodeError> {
    match document {
        Some(json) => decoded(json),
        None => Err(DecodeError::InvalidJson),
    }
}

/// A list of entries gives records exactly when each entry stands for one;
/// the records then correspond to the entries one by one, in order.
pub proof fn lemma_records_of(entries: Seq<Json>)
    ensures
        records_of(entries) is Ok <==> forall|i: int|
            0 <= i < entries.len() ==> (#[trigger] record_of(entries[i])) is Ok,
        records_of(entries) matches Ok(list) ==> list.len() == entries.len() && forall|i: int|
            0 <= i < entries.len() ==> #[trigger] record_of(entries[i]) == Ok::<
                Record,
                DecodeError,
            >(list[i]),
{
    if exists|at: int| first_malformed(entries, at) {
        let at = choose|at: int| first_malformed(entries, at);
        assert(record_of(entries[at]) is Err);
    } else if exists|i: int| 0 <= i < entries.len() && (#[trigger] record_of(entries[i])) is Err {
        let i = choose|i: int| 0 <= i < entries.len() && (#[trigger] record_of(entries[i])) is Err;
        lemma_first_malformed(entries, i);
    }
}

/// Before an entry that stands for no record there is a first such entry.
proof fn lemma_first_malformed(entries: Seq<Json>, bad: int)
    requires
        0 <= bad < entries.len(),
        record_of(entries[bad]) is Err,
    ensures
        exists|at: int| first_malformed(entries, at),
    decreases bad,
{
    if exists|i: int| 0 <= i < bad && (#[trigger] record_of(entries[i])) is Err {
        let i = choose|i: int| 0 <= i < bad && (#[trigger] record_of(entries[i])) is Err;
        lemma_first_malformed(entries, i);
    } else {
        assert(first_malformed(entries, bad));
    }
}

/// The values of a list of manufacturers, in order.
pub open spec fn views(list: Seq<Manufacturer>) -> Seq<Record> {
    list.map_values(|m: Manufacturer| m@)
}

/// The outcome of a decoding step, with the records taken by their values.
pub open spec fn outcome_view(outcome: Result<Vec<Manufacturer>, DecodeError>) -> Result<
    Seq<Record>,
    DecodeError,
> {
    match outcome {
        Ok(list) => Ok(views(list@)),
        Err(e) => Err(e),
    }
}

/// Reads a member of an entry as a record field.
fn field<'a>(value: &'a Value) -> (text: Option<&'a str>)
    ensures
        field_view(text) == field_of(content(*value)),
{
    value.as_str()
}

/// Reads one entry of the listing. The entry must be an object with the
/// members `Country`, `Mfr_CommonName` and `Mfr_Name`; a member that is not a
/// string gives an absent field.
pub fn record<'a>(entry: &'a Value) -> (outcome: Result<Manufacturer<'a>, DecodeError>)
    ensures
        match outcome {
            Ok(m) => record_of(content(*entry)) == Ok::<Record, DecodeError>(m@),
            Err(e) => record_of(content(*entry)) == Err::<Record, DecodeError>(e),
        },
{
    if !entry.is_object() {
        return Err(DecodeError::EntryNotObject);
    }
    let country = match member(entry, "Country") {
        Some(value) => field(value),
        None => {
            return Err(DecodeError::MissingField);
        },
    };
    let common_name = match member(entry, "Mfr_CommonName") {
        Some(value) => field(value),
        None => {
            return Err(DecodeError::MissingField);
        },
    };
    let name = match member(entry, "Mfr_Name") {
        Some(value) => field(value),
        None => {
            return Err(DecodeError::MissingField);
        },
    };
    Ok(Manufacturer { name, common_name, country })
}

/// Reads the records that a document lists, in the order of the listing.
pub fn records<'a>(document: &'a Value) -> (outcome: Result<Vec<Manufacturer<'a>>, DecodeError>)
    ensures
        outcome_view(outcome) == decoded(content(*document)),
{
    let results = match member(document, "Results") {
        Some(value) => value,
        None => {
            return Err(DecodeError::MissingResults);
        },
    };
    let items = match results.as_array() {
        Some(list) => list,
        None => {
            return Err(DecodeError::ResultsNotArray);
        },
    };
    let ghost entries = contents(items@);
    let mut list: Vec<Manufacturer<'a>> = Vec::new();
    let mut i: usize = 0;
    while i < items.len()
        invariant
            i <= items.len(),
            list.len() == i,
            entries == contents(items@),
            decoded(content(*document)) == records_of(entries),
            forall|k: int|
                0 <= k < i ==> (#[trigger] record_of(entries[k])) == Ok::<Record, DecodeError>(
                    list@[k]@,
                ),
        decreases items.len() - i,
    {
        match record(&items[i]) {
            Ok(m) => {
                list.push(m);
            },
            Err(e) => {
                proof {
                    let at = i as int;
                    assert(first_malformed(entries, at));
                    let chosen = choose|at: int| first_malformed(entries, at);
                    assert(chosen == at) by {
                        if chosen < at {
                            assert(record_of(entries[chosen]) is Ok);
                        } else if at < chosen {
                            assert(record_of(entries[at]) is Ok);
                        }
                    }
                }
                return Err(e);
            },
        }
        i += 1;
    }
    proof {
        assert forall|at: int| !first_malformed(entries, at) by {
            if 0 <= at < entries.len() {
                assert(record_of(entries[at]) is Ok);
            }
        }
        assert(views(list@) =~= entries.map_values(|entry: Json| record_of(entry)->Ok_0));
    }
    Ok(list)
}

} // verus!
