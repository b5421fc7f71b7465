//! Page requests and page results.

use vstd::prelude::*;

verus! {

/// A request for one page of a query's rows.
///
/// `page_no` counts from 1. `sort_by` and `order` are carried but not applied.
/// Each condition is a `(column, value)` pair; the column name goes into the
/// statement text as it is, so it must come from a trusted source.
#[derive(Debug, Clone)]
pub struct PageRequest {
    pub page_no: u64,
    pub page_size: u64,
    pub sort_by: Option<String>,
    pub order: Option<String>,
    pub conditions: Option<Vec<(String, String)>>,
}

/// The mathematical content of a [`PageRequest`].
pub struct PageRequestView {
    pub page_no: nat,
    pub page_size: nat,
    pub sort_by: Option<Seq<char>>,
    pub order: Option<Seq<char>>,
    pub conditions: Option<Seq<(Seq<char>, Seq<char>)>>,
}

impl View for PageRequest {
    type V = PageRequestView;

    open spec fn view(&self) -> PageRequestView {
        PageRequestView {
            page_no: self.page_no as nat,
            page_size: self.page_size as nat,
            sort_by: match self.sort_by {
                Some(s) => Some(s@),
                None => None,
            },
            order: match self.order {
                Some(s) => Some(s@),
                None => None,
            },
            conditions: match self.conditions {
                Some(c) => Some(c@.map_values(|p: (String, String)| (p.0@, p.1@))),
                None => None,
            },
        }
    }
}

impl PageRequestView {
    /// The conditions in order, none when the request carries no list.
    pub open spec fn condition_list(self) -> Seq<(Seq<char>, Seq<char>)> {
        match self.conditions {
            Some(c) => c,
            None => Seq::empty(),
        }
    }
}

impl PageRequest {
    /// A request for page `page_no` of `page_size` rows, without sorting or
    /// conditions.
    pub fn new(page_no: u64, page_size: u64) -> (request: Self)
        ensures
            request@ == (PageRequestView {
                page_no: page_no as nat,
                page_size: page_size as nat,
                sort_by: None,
                order: None,
                conditions: None,
            }),
    {
        PageRequest { page_no, page_size, sort_by: None, order: None, conditions: None }
    }
}

/// One page of rows together with the totals of the whole result.
#[derive(Debug, Clone)]
pub struct PageResult<T> {
    pub items: Vec<T>,
    pub total: u64,
    pub page_no: u64,
    pub page_size: u64,
    pub total_pages: u64,
}

/// The mathematical content of a [`PageResult`].
pub struct PageResultView<T> {
    pub items: Seq<T>,
    pub total: nat,
    pub page_no: nat,
    pub page_size: nat,
    pub total_pages: nat,
}

impl<T> View for PageResult<T> {
    type V = PageResultView<T>;

    open spec fn view(&self) -> PageResultView<T> {
        PageResultView {
            items: self.items@,
            total: self.total as nat,
            page_no: self.page_no as nat,
            page_size: self.page_size as nat,
            total_pages: self.total_pages as nat,
        }
    }
}

impl<T> PageResultView<T> {
    /// The result without rows for the given page: nothing found, no pages.
    pub open spec fn empty(page_no: nat, page_size: nat) -> Self {
        PageResultView { items: Seq::empty(), total: 0, page_no, page_size, total_pages: 0 }
    }

    /// No rows, no total, no pages.
    pub open spec fn is_empty(self) -> bool {
        self.items.len() == 0 && self.total == 0 && self.total_pages == 0
    }

    /// A page never holds more rows than its size, and there are no pages
    /// exactly when there are no rows at all.
    pub open spec fn well_formed(self) -> bool {
        &&& self.items.len() <= self.page_size
        &&& (self.total_pages == 0 <==> self.total == 0)
    }
}

impl<T> PageResult<T> {
    /// A result made of the given parts, taken as they are.
    pub fn new(items: Vec<T>, total: u64, page_no: u64, page_size: u64, total_pages: u64) -> (result: Self)
        ensures
            result@ == (PageResultView {
                items: items@,
                total: total as nat,
                page_no: page_no as nat,
                page_size: page_size as nat,
                total_pages: total_pages as nat,
            }),
            result.items == items,
    {
        PageResult { items, total, page_no, page_size, total_pages }
    }

    /// The empty result for the given page.
    pub fn empty(page_no: u64, page_size: u64) -> (result: Self)
        ensures
            result@ == PageResultView::<T>::empty(page_no as nat, page_size as nat),
            result@.is_empty(),
            result@.well_formed(),
    {
        Self::new(Vec::new(), 0, page_no, page_size, 0)
    }
}

} // verus!
