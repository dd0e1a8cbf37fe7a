//! Pagination records shared by the query messages of the channel data
//! model.

use vstd::prelude::*;

verus! {

/// PageRequest is to be embedded in gRPC request messages for efficient
/// pagination.
#[derive(Clone, Debug, PartialEq)]
pub struct PageRequest {
    /// key is a value returned in PageResponse.next_key to begin
    /// querying the next page most efficiently. Only one of offset or key
    /// should be set.
    pub key: Vec<u8>,
    /// offset is a numeric offset that can be used when key is unavailable.
    /// It is less efficient than using key. Only one of offset or key should
    /// be set.
    pub offset: u64,
    /// limit is the total number of results to be returned in the result page.
    /// If left empty it will default to a value to be set by each app.
    pub limit: u64,
    /// count_total is set to true to indicate that the result set should include
    /// a count of the total number of items available for pagination.
    pub count_total: bool,
    /// reverse is set to true if results are to be returned in the descending order.
    pub reverse: bool,
}

/// PageResponse is to be embedded in gRPC response messages where the
/// corresponding request message has used PageRequest.
#[derive(Clone, Debug, PartialEq)]
pub struct PageResponse {
    /// next_key is the key to be passed to PageRequest.key to
    /// query the next page most efficiently. It will be empty if
    /// there are no more results.
    pub next_key: Vec<u8>,
    /// total is total number of results available if PageRequest.count_total
    /// was set, its value is undefined otherwise
    pub total: u64,
}

} // verus!
