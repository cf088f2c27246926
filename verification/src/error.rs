//! Failure taxonomy of the directory client: a transport failure, or a
//! payload that does not match the expected shape.

use vstd::prelude::*;

verus! {

/// The response payload did not match the expected shape. `field` names the
/// offending field of the relay schema, or `"relays"` where the document
/// itself (or one of the array's elements) has the wrong form.
#[derive(Debug, PartialEq, Eq)]
pub struct DecodeError {
    pub field: String,
}

/// Everything a fetch can fail with: the request itself failed (no response,
/// or a non-success status), or the body could not be decoded.
#[derive(Debug, PartialEq, Eq)]
pub enum FetchError {
    Network(String),
    Decode(DecodeError),
}

} // verus!
