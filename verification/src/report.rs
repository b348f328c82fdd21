//! The answer to a search: the lines to show, or why there are none.

use crate::decode::{decoded_from, records, views, DecodeError};
use crate::json::{content, parse, parsed, Json};
use crate::record::{Manufacturer, Record};
use crate::select::{select, selected};
use crate::text::{decimal, decimal_string, texts};
use serde_json::Value;
use vstd::prelude::*;
use vstd::string::StringExecFns;

verus! {

/// Why a search gave no lines.
#[derive(Clone, Copy, Debug, PartialEq, Eq, Structural)]
pub enum SearchError {
    /// The listing could not be decoded.
    Decode(DecodeError),
    /// The listing was decoded and no record has the keyword.
    NoMatch,
}

/// What to tell the user about a decoding failure.
pub open spec fn decode_message(error: DecodeError) -> Seq<char> {
    match error {
        DecodeError::InvalidJson => "The listing is not valid JSON"@,
        DecodeError::MissingResults => "The listing has no Results"@,
        DecodeError::ResultsNotArray => "The Results of the listing are not an array"@,
        DecodeError::EntryNotObject => "An entry of the listing is not an object"@,
        DecodeError::MissingField => "An entry of the listing lacks a field"@,
    }
}

/// What to tell the user about a search that gave no lines.
pub open spec fn search_message(error: SearchError) -> Seq<char> {
    match error {
        SearchError::Decode(e) => decode_message(e),
        SearchError::NoMatch => "No manufacturer found"@,
    }
}

impl SearchError {
    /// The message to show for this error.
    pub fn message(&self) -> (text: String)
        ensures
            text@ == search_message(*self),
    {
        match self {
            SearchError::Decode(DecodeError::InvalidJson) => "The listing is not valid JSON".to_owned(),
            SearchError::Decode(DecodeError::MissingResults) => "The listing has no Results".to_owned(),
            SearchError::Decode(DecodeError::ResultsNotArray) => "The Results of the listing are not an array".to_owned(),
            SearchError::Decode(DecodeError::EntryNotObject) => "An entry of the listing is not an object".to_owned(),
            SearchError::Decode(DecodeError::MissingField) => "An entry of the listing lacks a field".to_owned(),
            SearchError::NoMatch => "No manufacturer found".to_owned(),
        }
    }
}

/// The line that says how many records were found.
pub open spec fn count_line(count: nat) -> Seq<char> {
    "Found "@ + decimal(count)
}

/// The line that precedes the description of the record with this number,
/// counted from one.
pub open spec fn heading(number: nat) -> Seq<char> {
    "Manufacturer #"@ + decimal(number)
}

/// The lines that show the found records: the count, then for each record,
/// in order, its numbered heading and its description. So line 0 is the
/// count, and the record with number k, counted from one, has its heading in
/// line 2k - 1 and its description in line 2k.
pub open spec fn report_lines(found: Seq<Record>) -> Seq<Seq<char>> {
    Seq::new(
        1 + 2 * found.len(),
        |i: int|
            if i == 0 {
                count_line(found.len())
            } else if i % 2 == 1 {
                heading(((i + 1) / 2) as nat)
            } else {
                found[i / 2 - 1].description()
            },
    )
}

/// The answer to a search among `records`: the report on the records that
/// have the keyword, or `NoMatch` where none has it.
pub open spec fn response(records: Seq<Record>, keyword: Seq<char>) -> Result<
    Seq<Seq<char>>,
    SearchError,
> {
    let found = selected(records, keyword);
    if found.len() == 0 {
        Err(SearchError::NoMatch)
    } else {
        Ok(report_lines(found))
    }
}

/// The answer to a search in a document, where `None` stands for bytes that
/// are no document.
pub open spec fn answer(document: Option<Json>, keyword: Seq<char>) -> Result<
    Seq<Seq<char>>,
    SearchError,
> {
    match decoded_from(document) {
        Ok(records) => response(records, keyword),
        Err(e) => Err(SearchError::Decode(e)),
    }
}

/// An answer with its lines taken by their values.
pub open spec fn answer_view(outcome: Result<Vec<String>, SearchError>) -> Result<
    Seq<Seq<char>>,
    SearchError,
> {
    match outcome {
        Ok(lines) => Ok(texts(lines@)),
        Err(e) => Err(e),
    }
}

/// Renders the found records as lines: `Found N`, then `Manufacturer #k` and
/// the description of the k-th record, for k from 1 to N.
pub fn report(found: &Vec<Manufacturer>) -> (lines: Vec<String>)
    ensures
        texts(lines@) == report_lines(views(found@)),
{
    let ghost all = report_lines(views(found@));
    let mut lines: Vec<String> = Vec::new();
    let mut first = "Found ".to_owned();
    first.append(decimal_string(found.len()).as_str());
    lines.push(first);
    let mut i: usize = 0;
    while i < found.len()
        invariant
            i <= found.len(),
            all == report_lines(views(found@)),
            lines.len() == 1 + 2 * i,
            forall|j: int| 0 <= j < lines.len() ==> (#[trigger] lines@[j])@ == all[j],
        decreases found.len() - i,
    {
        let mut title = "Manufacturer #".to_owned();
        title.append(decimal_string(i + 1).as_str());
        lines.push(title);
        lines.push(found[i].description());
        i += 1;
    }
    assert(texts(lines@) =~= all);
    lines
}

/// Answers a search among `records`.
pub fn respond(records: &Vec<Manufacturer>, keyword: &str) -> (outcome: Result<
    Vec<String>,
    SearchError,
>)
    ensures
        answer_view(outcome) == response(views(records@), keyword@),
{
    let found = select(records, keyword);
    if found.len() == 0 {
        Err(SearchError::NoMatch)
    } else {
        Ok(report(&found))
    }
}

/// Answers a search in a decoded document.
pub fn search_document(document: &Value, keyword: &str) -> (outcome: Result<
    Vec<String>,
    SearchError,
>)
    ensures
        answer_view(outcome) == answer(Some(content(*document)), keyword@),
{
    match records(document) {
        Ok(list) => respond(&list, keyword),
        Err(e) => Err(SearchError::Decode(e)),
    }
}

/// Answers a search in the bytes of a listing: decodes them, keeps the
/// records that have `keyword`, and renders those.
pub fn search(body: &[u8], keyword: &str) -> (outcome: Result<Vec<String>, SearchError>)
    ensures
        answer_view(outcome) == answer(parsed(body@), keyword@),
{
    match parse(body) {
        Ok(document) => search_document(&document, keyword),
        Err(_) => Err(SearchError::Decode(DecodeError::InvalidJson)),
    }
}

} // verus!
