//! The persisted lock list: a JSON array of slot indices.

use crate::lock_flip::{same_values, LockToggleRequest};
use vstd::prelude::*;

verus! {

/// Declares `serde_json::Error`, the error the decoder hands back; nothing
/// is assumed of what it holds.
#[verifier::external_type_specification]
#[verifier::external_body]
pub struct ExJsonError(serde_json::Error);

/// The unsigned 32-bit integers of `text` read as a JSON array, in order, or
/// `None` where `text` is not such an array.
pub uninterp spec fn json_u32_array(text: Seq<char>) -> Option<Seq<u32>>;

/// Relies on `serde_json::from_str::<Vec<u32>>`: it accepts exactly the JSON
/// arrays of unsigned 32-bit integers and returns their elements in order;
/// the result depends on the text alone.
#[verifier::external_body]
fn decode_u32_array(text: &str) -> (r: Result<Vec<u32>, serde_json::Error>)
    ensures
        r matches Ok(v) ==> json_u32_array(text@) == Some(v@),
        r is Err ==> json_u32_array(text@) is None,
{
    serde_json::from_str::<Vec<u32>>(text)
}

/// Why a lock list could not be read.
#[derive(Clone, Copy, Debug, PartialEq, Eq, Structural)]
pub enum LockFileError {
    /// The text is not a JSON array of unsigned 32-bit integers.
    Malformed,
}

/// Reads a lock list: the request for the indices the JSON array holds.
pub fn parse_lock_request(text: &str) -> (r: Result<LockToggleRequest, LockFileError>)
    ensures
        json_u32_array(text@) is None <==> r is Err,
        r is Err ==> r == Err::<LockToggleRequest, LockFileError>(LockFileError::Malformed),
        r matches Ok(req) ==> req.wf() && (json_u32_array(text@) matches Some(v) && same_values(
            req.spec_indices(),
            v,
        )),
{
    match decode_u32_array(text) {
        Ok(v) => Ok(LockToggleRequest::new(&v)),
        Err(_) => Err(LockFileError::Malformed),
    }
}

} // verus!
