//! The cursor-pagination state machine.
//!
//! A paginated listing is driven page by page: the flow starts with no
//! cursor, hands back each page's items in their original order, and
//! either follows the page's cursor or stops.  It stops on exhaustion
//! (`has_more` false, any cursor present ignored), on a page that claims
//! more but carries no cursor (tolerated as graceful exhaustion), and on
//! an error.  The caller performs the fetches; the flow makes every
//! decision, so the decisions are what is verified here.

use vstd::prelude::*;

verus! {

use crate::models::PaginatedResponse;

/// Whether a page calls for a further fetch: only when it claims more
/// results and names the cursor to fetch them with.
pub open spec fn page_continues<T>(page: PaginatedResponse<T>) -> bool {
    page.has_more && page.next_cursor is Some
}

/// The pagination flow: the cursor to send with the next request, and
/// whether the sequence has ended.
#[derive(Debug, Clone)]
pub struct PageFlow {
    /// Cursor for the next request; absent on the first.
    pub cursor: Option<String>,
    /// Whether the sequence has ended; no further request may be made.
    pub done: bool,
}

impl PageFlow {
    /// A fresh flow: no cursor yet, not done.
    pub fn new() -> (r: Self)
        ensures
            r.cursor is None,
            !r.done,
    {
        PageFlow { cursor: None, done: false }
    }

    /// Whether the sequence has ended.
    pub fn is_done(&self) -> (r: bool)
        ensures
            r == self.done,
    {
        self.done
    }

    /// The cursor to send with the next request.
    pub fn next_cursor(&self) -> (r: &Option<String>)
        ensures
            *r == self.cursor,
    {
        &self.cursor
    }

    /// Feed one fetched page into the flow.  The page's items come back
    /// unchanged and in their original order; the flow ends unless the
    /// page both claims more results and carries a cursor, in which case
    /// that cursor is the one to fetch with next.
    pub fn on_page<T>(&mut self, page: PaginatedResponse<T>) -> (items: Vec<T>)
        requires
            !old(self).done,
        ensures
            items == page.items,
            final(self).done == !page_continues(page),
            page_continues(page) ==> final(self).cursor == page.next_cursor,
            !page_continues(page) ==> final(self).cursor == old(self).cursor,
    {
        let PaginatedResponse { items, next_cursor, has_more } = page;
        if has_more {
            match next_cursor {
                Some(c) => {
                    self.cursor = Some(c);
                },
                None => {
                    self.done = true;
                },
            }
        } else {
            self.done = true;
        }
        items
    }

    /// Record that fetching a page failed: the error is surfaced as the
    /// final value of the sequence, and the flow ends.
    pub fn on_error(&mut self)
        ensures
            final(self).done,
            final(self).cursor == old(self).cursor,
    {
        self.done = true;
    }
}

} // verus!
