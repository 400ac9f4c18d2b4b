//! Trusted surface toward the CSV reading library: the declaration of its
//! error type and the textual dump used to seed a context stack.

use vstd::prelude::*;

use csv::Error as CsvError;

verus! {

#[verifier::external_type_specification]
#[verifier::external_body]
pub struct ExCsvError(CsvError);

/// Relies on the `Debug` formatting of `csv::Error`, which the crate
/// derives on a tuple struct: it always prints at least the type's name,
/// so the dump is never empty.
#[verifier::external_body]
pub(crate) fn csv_error_dump(raw: &CsvError) -> (r: String)
    ensures
        r@.len() > 0,
{
    format!("{:?}", raw)
}

} // verus!
