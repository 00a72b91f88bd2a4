//! Common types used across all API responses.

use vstd::prelude::*;

verus! {

/// Paginated API response wrapper.
///
/// All list endpoints return items wrapped in this structure with
/// cursor-based pagination support.  When `has_more` is false the
/// sequence is exhausted and any cursor present must not be followed.
#[derive(Debug, Clone)]
pub struct PaginatedResponse<T> {
    /// Items in this page, in the order the server returned them.
    pub items: Vec<T>,
    /// Cursor for fetching the next page.
    pub next_cursor: Option<String>,
    /// Whether more results exist beyond this page.
    pub has_more: bool,
}

impl<T> core::default::Default for PaginatedResponse<T> {
    /// The empty page: no items, no cursor, nothing further.
    fn default() -> (r: Self)
        ensures
            r.items@.len() == 0,
            r.next_cursor is None,
            r.has_more == false,
    {
        PaginatedResponse { items: Vec::new(), next_cursor: None, has_more: false }
    }
}

} // verus!
