//! Paginated retrieval of the computer inventory, as a state machine: it
//! names the next page to request and merges each page that comes back.
//! Whoever drives it performs the requests, strictly one after the other, and
//! abandons the whole fetch when one of them fails.
use vstd::prelude::*;

use crate::models::{JamfComputer, JamfComputerInventoryResponse};
use crate::sections::{inventory_query, pairs_view, query_params, ComputerInventorySection, PAGE_SIZE};

verus! {

/// How many pages a fetch requests when the first page reports `total`
/// records: the first page alone when it can hold them all, else enough pages
/// of `PAGE_SIZE` records for all of them.
pub open spec fn pages_for(total: nat) -> nat {
    if total <= PAGE_SIZE {
        1
    } else if total % (PAGE_SIZE as nat) == 0 {
        total / (PAGE_SIZE as nat)
    } else {
        total / (PAGE_SIZE as nat) + 1
    }
}

/// The state of one inventory fetch.
pub ghost struct InventoryFetchView {
    /// The sections requested with every page.
    pub sections: Seq<ComputerInventorySection>,
    /// Whether the first page has arrived.
    pub started: bool,
    /// The record count that the first page reported.
    pub total_count: nat,
    /// The number of pages this fetch requests in all.
    pub num_pages: nat,
    /// The number of pages received so far, which is the next page's index.
    pub next_page: nat,
    /// The records received so far, page after page, each in arrival order.
    pub records: Seq<JamfComputer>,
}

impl InventoryFetchView {
    pub open spec fn wf(self) -> bool {
        if self.started {
            &&& self.num_pages == pages_for(self.total_count)
            &&& 1 <= self.next_page <= self.num_pages
        } else {
            &&& self.next_page == 0
            &&& self.records.len() == 0
        }
    }

    /// Whether another page is still to be requested.
    pub open spec fn pending(self) -> bool {
        !self.started || self.next_page < self.num_pages
    }
}

/// One inventory fetch in progress.
pub struct InventoryFetch {
    sections: Vec<ComputerInventorySection>,
    started: bool,
    total_count: usize,
    num_pages: usize,
    next_page: usize,
    results: Vec<JamfComputer>,
}

impl View for InventoryFetch {
    type V = InventoryFetchView;

    closed spec fn view(&self) -> InventoryFetchView {
        InventoryFetchView {
            sections: self.sections@,
            started: self.started,
            total_count: self.total_count as nat,
            num_pages: self.num_pages as nat,
            next_page: self.next_page as nat,
            records: self.results@,
        }
    }
}

/// The number of pages for `total` records, computed without overflow.
fn page_count(total: usize) -> (r: usize)
    ensures
        r as nat == pages_for(total as nat),
{
    if total <= PAGE_SIZE {
        1
    } else if total % PAGE_SIZE == 0 {
        total / PAGE_SIZE
    } else {
        total / PAGE_SIZE + 1
    }
}

impl InventoryFetch {
    /// A fetch of the given sections that has requested nothing yet.
    pub fn new(sections: Vec<ComputerInventorySection>) -> (r: Self)
        ensures
            r@.wf(),
            r@.sections == sections@,
            !r@.started,
    {
        InventoryFetch {
            sections,
            started: false,
            total_count: 0,
            num_pages: 0,
            next_page: 0,
            results: Vec::new(),
        }
    }

    /// The index of the next page to request, if any is left.
    pub fn next_page(&self) -> (r: Option<usize>)
        requires
            self@.wf(),
        ensures
            self@.pending() ==> r == Some(self@.next_page as usize),
            !self@.pending() ==> r is None,
    {
        if !self.started || self.next_page < self.num_pages {
            Some(self.next_page)
        } else {
            None
        }
    }

    /// The query parameters of the next page request, if any is left.
    pub fn next_request(&self) -> (r: Option<Vec<(String, String)>>)
        requires
            self@.wf(),
        ensures
            self@.pending() ==> r is Some && pairs_view(r->Some_0@) == inventory_query(
                self@.sections,
                self@.next_page,
            ),
            !self@.pending() ==> r is None,
    {
        match self.next_page() {
            Some(page) => Some(query_params(&self.sections, page)),
            None => None,
        }
    }

    /// Takes in the page that the last request returned. The first page fixes
    /// the record count and so the number of pages; a later page only adds
    /// its records after those received before.
    pub fn receive(&mut self, page: JamfComputerInventoryResponse)
        requires
            old(self)@.wf(),
            old(self)@.pending(),
        ensures
            final(self)@.wf(),
            final(self)@.sections == old(self)@.sections,
            final(self)@.started,
            final(self)@.next_page == old(self)@.next_page + 1,
            final(self)@.records == old(self)@.records + page.results@,
            !old(self)@.started ==> final(self)@.total_count == page.total_count as nat,
            old(self)@.started ==> final(self)@.total_count == old(self)@.total_count,
    {
        let JamfComputerInventoryResponse { total_count, results } = page;
        let mut results = results;
        if !self.started {
            self.started = true;
            self.total_count = total_count;
            self.num_pages = page_count(total_count);
            self.next_page = 1;
            self.results = results;
        } else {
            self.results.append(&mut results);
            self.next_page = self.next_page + 1;
        }
    }

    /// The merged inventory once every page has arrived: the record count of
    /// the first page, and the records of all pages in page order.
    pub fn finish(self) -> (r: JamfComputerInventoryResponse)
        requires
            self@.wf(),
            !self@.pending(),
        ensures
            r.total_count as nat == self@.total_count,
            r.results@ == self@.records,
            self@.next_page == pages_for(self@.total_count),
    {
        JamfComputerInventoryResponse { total_count: self.total_count, results: self.results }
    }
}

/// A fetch requests the first page alone exactly when that page reports no
/// more records than a page holds; otherwise it requests one page per
/// `PAGE_SIZE` records, the last one possibly partial.
pub proof fn lemma_pages_requested(total: nat)
    ensures
        pages_for(total) >= 1,
        pages_for(total) == 1 <==> total <= PAGE_SIZE,
        total > PAGE_SIZE ==> (pages_for(total) - 1) * (PAGE_SIZE as nat) < total,
        total > PAGE_SIZE ==> total <= pages_for(total) * (PAGE_SIZE as nat),
{
    if total > PAGE_SIZE {
        assert(total / 100 >= 1);
    }
}

} // verus!
