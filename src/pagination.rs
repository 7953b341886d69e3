//! Page requests and paged responses.

use vstd::prelude::*;

verus! {

/// Page size when a request names none.
pub const DEFAULT_PAGE_SIZE: u64 = 10;

/// Largest page size served.
pub const MAX_PAGE_SIZE: u64 = 100;

/// The page served for a requested one.
pub open spec fn effective_page(page: Option<u64>) -> u64 {
    match page {
        Some(p) => p,
        None => 0,
    }
}

/// The page size served for a requested one.
pub open spec fn effective_size(size: Option<u64>) -> u64 {
    match size {
        Some(s) => if s > MAX_PAGE_SIZE { MAX_PAGE_SIZE } else { s },
        None => DEFAULT_PAGE_SIZE,
    }
}

#[derive(Clone, Debug, Default)]
pub struct PaginationRequest<T: Clone + Default> {
    pub query: T,
    pub size: Option<u64>,
    pub page: Option<u64>,
}

impl<T: Clone + Default> PaginationRequest<T> {
    /// A request for the first page of default size around `query`.
    pub fn builder(query: T) -> (r: PaginationRequest<T>)
        ensures
            r.query == query,
            r.size is None,
            r.page is None,
    {
        PaginationRequest { query, size: None, page: None }
    }

    pub fn with_size(self, size: u64) -> (r: PaginationRequest<T>)
        ensures
            r.query == self.query,
            r.size == Some(size),
            r.page == self.page,
    {
        PaginationRequest { query: self.query, size: Some(size), page: self.page }
    }

    pub fn with_page(self, page: u64) -> (r: PaginationRequest<T>)
        ensures
            r.query == self.query,
            r.size == self.size,
            r.page == Some(page),
    {
        PaginationRequest { query: self.query, size: self.size, page: Some(page) }
    }

    pub fn query(&self) -> (r: &T)
        ensures
            *r == self.query,
    {
        &self.query
    }

    /// The requested page size, 10 when absent, at most 100.
    pub fn size(&self) -> (r: u64)
        ensures
            r == effective_size(self.size),
    {
        let size = match self.size {
            Some(s) => s,
            None => DEFAULT_PAGE_SIZE,
        };
        if size > MAX_PAGE_SIZE {
            MAX_PAGE_SIZE
        } else {
            size
        }
    }

    /// The requested page, counted from 0.
    pub fn page(&self) -> (r: u64)
        ensures
            r == effective_page(self.page),
    {
        match self.page {
            Some(p) => p,
            None => 0,
        }
    }

    /// Rows to skip before the requested page; `None` when that overflows.
    pub fn offset(&self) -> (r: Option<u64>)
        ensures
            r is Some <==> effective_page(self.page) * effective_size(self.size) <= u64::MAX,
            r matches Some(o) ==> o == effective_page(self.page) * effective_size(self.size),
    {
        let page = self.page();
        let size = self.size();
        page.checked_mul(size)
    }
}

#[derive(Clone, Debug, Default)]
pub struct PaginationResponse<T: Clone + Default, D: Clone + Default> {
    pub query: Option<T>,
    pub size: u64,
    pub page: u64,
    pub total: u64,
    pub data: Vec<D>,
}

impl<T: Clone + Default, D: Clone + Default> PaginationResponse<T, D> {
    /// An empty page.
    pub fn builder() -> (r: PaginationResponse<T, D>)
        ensures
            r.query is None,
            r.size == 0,
            r.page == 0,
            r.total == 0,
            r.data@.len() == 0,
    {
        PaginationResponse { query: None, size: 0, page: 0, total: 0, data: Vec::new() }
    }

    /// The page metadata of `request`, with `total` matching rows in all.
    pub fn with_request(self, request: PaginationRequest<T>, total: u64) -> (r: PaginationResponse<T, D>)
        ensures
            r.query == Some(request.query),
            r.size == effective_size(request.size),
            r.page == effective_page(request.page),
            r.total == total,
            r.data == self.data,
    {
        let size = request.size();
        let page = request.page();
        PaginationResponse {
            query: Some(request.query),
            size,
            page,
            total,
            data: self.data,
        }
    }

    pub fn append(&mut self, item: D)
        ensures
            final(self).data@ == old(self).data@.push(item),
            final(self).query == old(self).query,
            final(self).size == old(self).size,
            final(self).page == old(self).page,
            final(self).total == old(self).total,
    {
        self.data.push(item);
    }
}

} // verus!
