//! Records as comma-separated text, written and read by the `csv` crate.
//!
//! Nothing here is proved. How a field is quoted and how a text is split take
//! pages to state, so each result is given a name, and the contracts say that
//! the outside call returns what the name stands for.

use vstd::prelude::*;

verus! {

/// The error of the `csv` crate. Nothing is known of a value but that it is one.
#[verifier::external_type_specification]
#[verifier::external_body]
pub struct ExCsvError(csv::Error);

/// The line that a `csv::Writer` with default settings writes for one record:
/// the fields, quoted where needed, with commas between them and a line feed
/// after them.
pub uninterp spec fn csv_line_of(fields: Seq<Seq<char>>) -> Seq<u8>;

/// The records that a `csv::Reader` without a header row, otherwise with
/// default settings, reads from a text, each as its fields; nothing where the
/// reader fails: on a record that is no UTF-8, or one with another number of
/// fields than the first.
pub uninterp spec fn csv_rows_of(text: Seq<u8>) -> Option<Seq<Seq<Seq<char>>>>;

/// Writes one record with a `csv::Writer` of its own over an empty buffer:
/// `Writer::from_writer`, `Writer::write_record` and `Writer::into_inner`.
///
/// Neither call fails here: a buffer in memory takes every byte, and the
/// first record of a writer may have any number of fields.
#[verifier::external_body]
pub(crate) fn csv_line(fields: &Vec<String>) -> (line: Vec<u8>)
    ensures
        line@ == csv_line_of(fields.deep_view()),
{
    let mut writer = csv::Writer::from_writer(Vec::new());
    writer.write_record(fields).unwrap();
    writer.into_inner().unwrap()
}

/// Reads every record of a text, the first one included:
/// `ReaderBuilder::has_headers(false)`, `ReaderBuilder::from_reader` and
/// `Reader::records`, each `StringRecord` handed out as its fields.
#[verifier::external_body]
pub(crate) fn csv_rows(text: &[u8]) -> (r: Result<Vec<Vec<String>>, csv::Error>)
    ensures
        match r {
            Ok(rows) => csv_rows_of(text@) == Some(rows.deep_view()),
            Err(_) => csv_rows_of(text@) is None,
        },
{
    let mut reader = csv::ReaderBuilder::new().has_headers(false).from_reader(text);
    let mut rows = Vec::new();
    for record in reader.records() {
        rows.push(record?.iter().map(String::from).collect());
    }
    Ok(rows)
}

} // verus!
