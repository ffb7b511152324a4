//! One row of input, as the store will take it.

use vstd::prelude::*;
use crate::error::PackError;
use crate::text::{parse_u32, parse_u32_spec};

verus! {

/// What is said of a row that does not name its table.
pub const EMPTY_RECORD: &'static str = "The record is empty.";

/// What a field holds: its text, or nothing.
pub open spec fn field_view(field: Option<String>) -> Option<Seq<char>> {
    match field {
        Some(text) => Some(text@),
        None => None,
    }
}

/// The fields of a row, each by what it holds.
pub open spec fn fields_view(fields: Seq<Option<String>>) -> Seq<Option<Seq<char>>> {
    Seq::new(fields.len(), |i: int| field_view(fields[i]))
}

/// The text of the first field, if the row has one and it holds a value.
pub open spec fn first_field(fields: Seq<Option<Seq<char>>>) -> Option<Seq<char>> {
    if fields.len() > 0 {
        fields[0]
    } else {
        None
    }
}

/// What a file's bytes decode to as headerless CSV in which rows may
/// differ in length: the rows before the first one that does not decode,
/// each by its fields and an empty field being absent, and whether there is
/// such a row (one with a field that is no UTF-8).
pub uninterp spec fn csv_rows(data: Seq<u8>) -> (Seq<Seq<Option<Seq<char>>>>, bool);

/// The rows of a file up to the first one that does not decode.
pub open spec fn decoded_rows(data: Seq<u8>) -> Seq<Seq<Option<Seq<char>>>> {
    csv_rows(data).0
}

/// Whether every row of a file decodes.
pub open spec fn decodes(data: Seq<u8>) -> bool {
    !csv_rows(data).1
}

/// Records, each by its fields.
pub open spec fn records_view(records: Seq<Record>) -> Seq<Seq<Option<Seq<char>>>> {
    Seq::new(records.len(), |i: int| records[i]@)
}

/// Decodes a file row by row, in the order of its rows, up to the first
/// row that does not decode: the records before it, and the failure if
/// there was one.
///
/// Trusted: a `csv::Reader` built without headers and with flexible row
/// lengths over the bytes, its `byte_records`, and
/// `csv::ByteRecord::deserialize` of each row into optional strings. The
/// result is a function of the bytes alone and is only given its name here.
#[verifier::external_body]
pub(crate) fn read_records(data: &[u8]) -> (r: (Vec<Record>, Option<csv::Error>))
    ensures
        csv_rows(data@) == (records_view(r.0@), r.1 is Some),
{
    let mut reader = csv::ReaderBuilder::new().has_headers(false).flexible(true).from_reader(data);
    let mut records = Vec::new();
    for row in reader.byte_records() {
        match row.and_then(|raw| raw.deserialize(None)) {
            Ok(fields) => records.push(Record::new(fields)),
            Err(err) => return (records, Some(err)),
        }
    }
    (records, None)
}

/// A row of a CSV file: its fields in order, an empty field being absent.
/// The first field names the table that the row belongs to.
#[derive(Debug, Clone, PartialEq)]
pub struct Record(Vec<Option<String>>);

impl View for Record {
    type V = Seq<Option<Seq<char>>>;

    closed spec fn view(&self) -> Seq<Option<Seq<char>>> {
        fields_view(self.0@)
    }
}

impl Record {
    /// A record of the given fields.
    pub fn new(raw: Vec<Option<String>>) -> (record: Record)
        ensures
            record@ == fields_view(raw@),
    {
        Record(raw)
    }

    /// Decodes a CSV file, given as its bytes, row by row: the records up
    /// to the first row that does not decode, and the error for that row if
    /// there is one.
    pub fn read_all(data: &[u8]) -> (r: (Vec<Record>, Option<PackError>))
        ensures
            records_view(r.0@) == decoded_rows(data@),
            decodes(data@) ==> r.1 is None,
            !decodes(data@) ==> r.1 matches Some(PackError::Csv(_)),
    {
        let (records, failure) = read_records(data);
        match failure {
            None => (records, None),
            Some(err) => (records, Some(PackError::Csv(err))),
        }
    }

    /// The identifier of the table that the row goes to: the first field
    /// read as a decimal number. A row without a first field, or with an
    /// absent one, is bad input; a first field that is no such number is a
    /// parse failure.
    pub fn table_id(&self) -> (r: Result<u32, PackError>)
        ensures
            match first_field(self@) {
                None => r matches Err(PackError::BadInput(text)) && text@ == EMPTY_RECORD@,
                Some(text) => match parse_u32_spec(text) {
                    Some(id) => r == Ok::<u32, PackError>(id),
                    None => r matches Err(PackError::ParseInt(_)),
                },
            },
    {
        if self.0.len() == 0 {
            return Err(PackError::BadInput(EMPTY_RECORD.to_owned()));
        }
        match &self.0[0] {
            None => Err(PackError::BadInput(EMPTY_RECORD.to_owned())),
            Some(text) => {
                match parse_u32(text.as_str()) {
                    Ok(id) => Ok(id),
                    Err(err) => Err(PackError::ParseInt(err)),
                }
            },
        }
    }

    /// The fields, in order, as they are bound to a statement.
    pub fn as_slice(&self) -> (fields: &[Option<String>])
        ensures
            fields_view(fields@) == self@,
    {
        self.0.as_slice()
    }
}

} // verus!
