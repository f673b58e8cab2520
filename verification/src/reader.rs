//! The boundary to the `csv` crate: splitting delimited text into records.
//!
//! Nothing in this file is proved. The crate's grammar (quoting, line ends,
//! skipped blank lines) is not restated here: what it finds in a text only
//! gets a name, and the rest of the library is proved for whatever that is.

use vstd::prelude::*;

verus! {

/// The error type of the `csv` crate, carried through as an opaque value.
#[verifier::external_type_specification]
#[verifier::external_body]
pub struct ExCsvError(csv::Error);

/// The data records of the delimited text `data`: what a `csv::Reader` built
/// with `has_headers(true)` and `flexible(true)` yields from `records()` over
/// these bytes, each record as the sequence of its fields. The first record of
/// the text is the header and is not among them. `None` where the reader
/// reports an error before the end of the text.
pub uninterp spec fn csv_records(data: Seq<u8>) -> Option<Seq<Seq<Seq<char>>>>;

/// Builds a reader over `data` with `csv::ReaderBuilder` (`has_headers(true)`,
/// `flexible(true)`, `from_reader`), walks `csv::Reader::records` and copies
/// the fields of every `csv::StringRecord`, stopping at the first error.
///
/// The contract is believed, not proved. It claims only that the outcome is
/// the one that `csv_records` names for these bytes: `Ok` with exactly those
/// records where it is `Some`, and an error where it is `None`.
#[verifier::external_body]
pub(crate) fn read_records(data: &[u8]) -> (r: Result<Vec<Vec<String>>, csv::Error>)
    ensures
        match r {
            Ok(rows) => csv_records(data@) == Some(rows.deep_view()),
            Err(_) => csv_records(data@) is None,
        },
{
    let mut reader = csv::ReaderBuilder::new().has_headers(true).flexible(true).from_reader(data);
    let mut rows = Vec::new();
    for record in reader.records() {
        rows.push(record?.iter().map(String::from).collect());
    }
    Ok(rows)
}

} // verus!
