//! JSON text.
use vstd::prelude::*;

verus! {

/// What came of reading a text, as mathematics has it.
pub open spec fn read_of(read: Result<String, String>) -> Result<Seq<char>, Seq<char>> {
    match read {
        Ok(value) => Ok(value@),
        Err(error) => Err(error@),
    }
}

/// The text of the one JSON value that a text holds, without the white space
/// around it, or the reason why the text does not hold one JSON value.
pub uninterp spec fn raw_json_of(text: Seq<char>) -> Result<Seq<char>, Seq<char>>;

/// Reads a text as one JSON value that is kept as it is written.
///
/// Trusted: `serde_json::value::RawValue::from_string` succeeds or fails by the
/// text alone, and so does what `RawValue::get` then returns and the text of
/// the error.
#[verifier::external_body]
pub(crate) fn raw_json(text: &str) -> (r: Result<String, String>)
    ensures
        read_of(r) == raw_json_of(text@),
{
    match serde_json::value::RawValue::from_string(text.to_owned()) {
        Ok(raw) => Ok(raw.get().to_owned()),
        Err(error) => Err(error.to_string()),
    }
}

/// Why a text cannot be read as a JSON value in memory, if it cannot.
pub uninterp spec fn json_value_fault(text: Seq<char>) -> Option<Seq<char>>;

/// Tests whether a text can be read as a JSON value in memory.
///
/// Trusted: `serde_json::from_str` into a `serde_json::Value` succeeds or fails
/// by the text alone, and so does the text of the error.
#[verifier::external_body]
pub(crate) fn json_value_error(text: &str) -> (r: Option<String>)
    ensures
        match r {
            None => json_value_fault(text@) is None,
            Some(error) => json_value_fault(text@) == Some(error@),
        },
{
    match serde_json::from_str::<serde_json::Value>(text) {
        Ok(_) => None,
        Err(error) => Some(error.to_string()),
    }
}

} // verus!
