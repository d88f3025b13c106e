//! The two envelope shapes the remote API answers with: a single-item
//! envelope, and a paginated envelope carrying page metadata.

use vstd::prelude::*;

verus! {

/// The single-item envelope: `data` is absent when the resource does not
/// exist, which is distinct from any transport failure.
#[derive(Debug)]
pub struct ApiResponse<T> {
    /// The payload, absent when the remote found no matching resource.
    pub data: Option<T>,
}

impl<T> ApiResponse<T> {
    /// The payload of a successful single-item response: the resource when
    /// one matched, nothing when none did. Absence is not an error.
    pub fn into_data(self) -> (r: Option<T>)
        ensures
            r == self.data,
    {
        self.data
    }
}

/// The paginated envelope: the items of one page plus the page metadata the
/// pagination engine steers by. On a successful response `page` and
/// `page_size` are always present; `data` may still be absent or empty.
#[derive(Debug)]
pub struct PaginatedApiResponse<T> {
    /// The items of this page, possibly absent instead of empty.
    pub data: Option<Vec<T>>,
    /// The page this response is for.
    pub page: i32,
    /// The number of items a full page holds.
    pub page_size: i32,
    /// The number of items on this page.
    pub count: i32,
    /// The number of items the whole result has.
    pub total_count: i32,
}

} // verus!
