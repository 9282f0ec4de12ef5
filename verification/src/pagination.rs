//! Offset/limit pagination.
//!
//! Paged Nordnet endpoints take `?offset=..&limit=..`. A [`Page`] holds one
//! page of results with the window that produced it; the API does not
//! always return a total count, so none is kept.

use vstd::prelude::*;
use vstd::std_specs::iter::IteratorSpec;

verus! {

/// One page of results plus the offset/limit window it represents.
#[derive(Debug, Clone, PartialEq, Eq)]
pub struct Page<T> {
    pub items: Vec<T>,
    pub offset: u64,
    pub limit: u64,
}

impl<T> Page<T> {
    /// Build a page from the items returned for the `offset`/`limit` query.
    pub fn new(items: Vec<T>, offset: u64, limit: u64) -> (p: Self)
        ensures
            p.items@ == items@,
            p.offset == offset,
            p.limit == limit,
    {
        Page { items, offset, limit }
    }

    /// Number of items returned in this page.
    pub fn len(&self) -> (n: usize)
        ensures
            n == self.items@.len(),
    {
        self.items.len()
    }

    /// True if this page holds no item.
    pub fn is_empty(&self) -> (b: bool)
        ensures
            b == (self.items@.len() == 0),
    {
        self.items.len() == 0
    }

    /// True if fewer items than the page size came back. A heuristic: some
    /// endpoints return exactly `limit` items on the last page.
    pub fn is_probably_last(&self) -> (b: bool)
        ensures
            b == (self.items@.len() < self.limit),
    {
        (self.items.len() as u64) < self.limit
    }

    /// The offset to request for the next page.
    pub fn next_offset(&self) -> (n: u64)
        requires
            self.offset + self.items@.len() <= u64::MAX,
        ensures
            n == self.offset + self.items@.len(),
    {
        self.offset + self.items.len() as u64
    }
}

impl<T> IntoIterator for Page<T> {
    type Item = T;

    type IntoIter = std::vec::IntoIter<T>;

    /// The page's items, in order, without the window.
    fn into_iter(self) -> (iter: Self::IntoIter)
        ensures
            iter.remaining() == self.items@,
    {
        broadcast use vstd::std_specs::vec::axiom_spec_into_iter;

        self.items.into_iter()
    }
}

} // verus!
