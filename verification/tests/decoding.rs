use manufacturers::decode::{record, records, DecodeError};
use serde_json::Value;

fn value(text: &str) -> Value {
    serde_json::from_str::<Value>(text).unwrap()
}

#[test]
fn records_reads_listing_in_order() {
    let document = value(
        r#"{"Count":2,"Message":"Response returned successfully","SearchCriteria":null,
            "Results":[
              {"Country":"UNITED STATES (USA)","Mfr_CommonName":"Tesla","Mfr_ID":955,"Mfr_Name":"TESLA, INC.","VehicleTypes":[]},
              {"Country":"UNITED KINGDOM (UK)","Mfr_CommonName":"Aston Martin","Mfr_ID":956,"Mfr_Name":"ASTON MARTIN LAGONDA LIMITED"}
            ]}"#,
    );
    let list = records(&document).unwrap();
    assert_eq!(list.len(), 2);
    assert_eq!(list[0].name, Some("TESLA, INC."));
    assert_eq!(list[0].common_name, Some("Tesla"));
    assert_eq!(list[0].country, Some("UNITED STATES (USA)"));
    assert_eq!(list[1].name, Some("ASTON MARTIN LAGONDA LIMITED"));
    assert_eq!(list[1].common_name, Some("Aston Martin"));
    assert_eq!(list[1].country, Some("UNITED KINGDOM (UK)"));
}

#[test]
fn records_of_empty_listing_are_none() {
    let document = value(r#"{"Results":[]}"#);
    assert!(records(&document).unwrap().is_empty());
}

#[test]
fn null_member_is_an_absent_field() {
    let entry = value(r#"{"Country":null,"Mfr_CommonName":null,"Mfr_Name":"ACME"}"#);
    let m = record(&entry).unwrap();
    assert_eq!(m.name, Some("ACME"));
    assert_eq!(m.common_name, None);
    assert_eq!(m.country, None);
}

#[test]
fn member_of_another_kind_is_an_absent_field() {
    let entry = value(r#"{"Country":42,"Mfr_CommonName":["Tesla"],"Mfr_Name":{"is":"ACME"}}"#);
    let m = record(&entry).unwrap();
    assert_eq!(m.name, None);
    assert_eq!(m.common_name, None);
    assert_eq!(m.country, None);
    let entry = value(r#"{"Country":true,"Mfr_CommonName":1.5,"Mfr_Name":""}"#);
    let m = record(&entry).unwrap();
    assert_eq!(m.name, Some(""));
    assert_eq!(m.common_name, None);
    assert_eq!(m.country, None);
}

#[test]
fn empty_text_is_kept_apart_from_absent() {
    let entry = value(r#"{"Country":"","Mfr_CommonName":null,"Mfr_Name":"ACME"}"#);
    let m = record(&entry).unwrap();
    assert_eq!(m.country, Some(""));
    assert_eq!(m.common_name, None);
}

#[test]
fn field_text_is_unescaped() {
    let entry = value(r#"{"Country":"CÔTE D'IVOIRE","Mfr_CommonName":"a\"b","Mfr_Name":"x\ty"}"#);
    let m = record(&entry).unwrap();
    assert_eq!(m.country, Some("CÔTE D'IVOIRE"));
    assert_eq!(m.common_name, Some("a\"b"));
    assert_eq!(m.name, Some("x\ty"));
}

#[test]
fn entry_that_is_no_object_is_rejected() {
    assert_eq!(record(&value("null")).unwrap_err(), DecodeError::EntryNotObject);
    assert_eq!(record(&value("\"Tesla\"")).unwrap_err(), DecodeError::EntryNotObject);
    assert_eq!(record(&value("[]")).unwrap_err(), DecodeError::EntryNotObject);
    assert_eq!(record(&value("7")).unwrap_err(), DecodeError::EntryNotObject);
}

#[test]
fn entry_without_a_member_is_rejected() {
    let no_country = value(r#"{"Mfr_CommonName":"Tesla","Mfr_Name":"TESLA, INC."}"#);
    assert_eq!(record(&no_country).unwrap_err(), DecodeError::MissingField);
    let no_common = value(r#"{"Country":"USA","Mfr_Name":"TESLA, INC."}"#);
    assert_eq!(record(&no_common).unwrap_err(), DecodeError::MissingField);
    let no_name = value(r#"{"Country":"USA","Mfr_CommonName":"Tesla"}"#);
    assert_eq!(record(&no_name).unwrap_err(), DecodeError::MissingField);
    assert_eq!(record(&value("{}")).unwrap_err(), DecodeError::MissingField);
}

#[test]
fn member_names_are_exact() {
    let entry = value(r#"{"country":"USA","Mfr_CommonName":"Tesla","Mfr_Name":"TESLA, INC."}"#);
    assert_eq!(record(&entry).unwrap_err(), DecodeError::MissingField);
    let document = value(r#"{"results":[]}"#);
    assert_eq!(records(&document).unwrap_err(), DecodeError::MissingResults);
}

#[test]
fn document_without_results_is_rejected() {
    assert_eq!(records(&value(r#"{"Count":0}"#)).unwrap_err(), DecodeError::MissingResults);
    assert_eq!(records(&value("{}")).unwrap_err(), DecodeError::MissingResults);
}

#[test]
fn document_that_is_no_object_is_rejected() {
    assert_eq!(records(&value("[]")).unwrap_err(), DecodeError::MissingResults);
    assert_eq!(records(&value("null")).unwrap_err(), DecodeError::MissingResults);
    assert_eq!(records(&value("\"Results\"")).unwrap_err(), DecodeError::MissingResults);
}

#[test]
fn results_that_are_no_array_are_rejected() {
    assert_eq!(records(&value(r#"{"Results":null}"#)).unwrap_err(), DecodeError::ResultsNotArray);
    assert_eq!(records(&value(r#"{"Results":{}}"#)).unwrap_err(), DecodeError::ResultsNotArray);
    assert_eq!(records(&value(r#"{"Results":"none"}"#)).unwrap_err(), DecodeError::ResultsNotArray);
}

#[test]
fn one_malformed_entry_rejects_the_listing() {
    let document = value(
        r#"{"Results":[
              {"Country":"USA","Mfr_CommonName":"Tesla","Mfr_Name":"TESLA, INC."},
              17,
              {"Country":"UK","Mfr_CommonName":"Lotus","Mfr_Name":"LOTUS CARS"}
            ]}"#,
    );
    assert_eq!(records(&document).unwrap_err(), DecodeError::EntryNotObject);
}

#[test]
fn first_malformed_entry_decides_the_error() {
    let document = value(r#"{"Results":[{"Country":"USA"}, 17]}"#);
    assert_eq!(records(&document).unwrap_err(), DecodeError::MissingField);
    let document = value(r#"{"Results":[17, {"Country":"USA"}]}"#);
    assert_eq!(records(&document).unwrap_err(), DecodeError::EntryNotObject);
}
