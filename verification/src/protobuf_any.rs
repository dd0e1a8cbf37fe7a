//! The catch-all protobuf message: a type URL and the serialized value.

use vstd::prelude::*;

verus! {

/// `Any` contains an arbitrary serialized message along with a URL that
/// describes its type.
#[derive(Clone, Debug, PartialEq)]
pub struct Any {
    /// A URL/resource name that uniquely identifies the type of the
    /// serialized message.
    pub type_url: String,
    /// Must be a valid serialized protocol buffer of the above specified
    /// type.
    pub value: Vec<u8>,
}

} // verus!
