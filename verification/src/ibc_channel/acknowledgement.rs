//! The nested types of an `Acknowledgement` message.

use vstd::prelude::*;

verus! {

/// response contains either a result or an error and must be non-empty
#[derive(Clone, Debug, PartialEq)]
pub enum Response {
    Result(Vec<u8>),
    Error(String),
}

} // verus!
