use vstd::prelude::*;

verus! {

/// The cursor-based page aggregator.
///
/// A caller drives it against a paged endpoint: the first request carries no
/// continuation token, each absorbed page appends its items in arrival order
/// (no deduplication), and the aggregation is finished exactly when a page
/// arrives without a continuation token. A page-fetch failure aborts the
/// whole aggregation; no partial result is surfaced.
pub struct PageAggregator<T> {
    items: Vec<T>,
    cursor: Option<String>,
    done: bool,
}

impl<T> PageAggregator<T> {
    /// The items accumulated so far, strictly in page-arrival order.
    pub closed spec fn spec_items(self) -> Seq<T> {
        self.items@
    }

    /// The continuation token for the next request; nothing before the first
    /// page and after the last.
    pub closed spec fn spec_cursor(self) -> Option<String> {
        self.cursor
    }

    /// Whether a page without a continuation token has arrived.
    pub closed spec fn spec_done(self) -> bool {
        self.done
    }

    pub fn new() -> (r: PageAggregator<T>)
        ensures
            r.spec_items() == Seq::<T>::empty(),
            r.spec_cursor() is None,
            !r.spec_done(),
    {
        PageAggregator { items: Vec::new(), cursor: None, done: false }
    }

    pub fn is_done(&self) -> (r: bool)
        ensures
            r == self.spec_done(),
    {
        self.done
    }

    /// The continuation token to put in the next page request.
    pub fn next_cursor(&self) -> (r: &Option<String>)
        ensures
            *r == self.spec_cursor(),
    {
        &self.cursor
    }

    /// Absorbs one fetched page: its items are appended in arrival order and
    /// its continuation token (or its absence) decides whether the
    /// aggregation goes on.
    pub fn absorb_page(&mut self, page_items: Vec<T>, next_page_token: Option<String>)
        requires
            !old(self).spec_done(),
        ensures
            final(self).spec_items() == old(self).spec_items() + page_items@,
            final(self).spec_cursor() == next_page_token,
            final(self).spec_done() == (next_page_token is None),
    {
        let mut incoming = page_items;
        self.items.append(&mut incoming);
        self.done = next_page_token.is_none();
        self.cursor = next_page_token;
    }

    /// The aggregated result, available once the aggregation has finished.
    pub fn into_items(self) -> (r: Vec<T>)
        requires
            self.spec_done(),
        ensures
            r@ == self.spec_items(),
    {
        self.items
    }
}

} // verus!
