//! Queries of a metric, as the API takes and answers them.

use vstd::prelude::*;

use crate::json::{entries, Entries, Object};
use crate::text::opt_text;

verus! {

/// The body of a request to query a metric: the OData options `$filter`,
/// `$orderby` and `$top`.
#[derive(Debug, PartialEq, Eq)]
pub struct QueryRequest<S = String> {
    pub filter: Option<S>,
    pub orderby: Option<S>,
    pub top: u64,
}

/// Where a page stands among the pages of an answer.
#[derive(Debug, PartialEq, Eq)]
pub struct PageInfo<S = String> {
    pub has_next: bool,
    pub cursor: Option<S>,
}

/// The answer to a query: result rows, each a JSON object.
#[derive(Debug, PartialEq)]
pub struct QueryResponse {
    pub items: Vec<Object>,
    pub page_info: PageInfo,
}

/// What the answer to a query holds.
pub struct QueryResponseView {
    pub items: Seq<Entries>,
    pub page_info: PageInfo<Seq<char>>,
}

/// The contents of result rows.
pub open spec fn contents(items: Seq<Object>) -> Seq<Entries> {
    items.map_values(|object: Object| entries(object))
}

impl View for QueryRequest {
    type V = QueryRequest<Seq<char>>;

    open spec fn view(&self) -> QueryRequest<Seq<char>> {
        QueryRequest {
            filter: opt_text(self.filter),
            orderby: opt_text(self.orderby),
            top: self.top,
        }
    }
}

impl View for PageInfo {
    type V = PageInfo<Seq<char>>;

    open spec fn view(&self) -> PageInfo<Seq<char>> {
        PageInfo { has_next: self.has_next, cursor: opt_text(self.cursor) }
    }
}

impl View for QueryResponse {
    type V = QueryResponseView;

    open spec fn view(&self) -> QueryResponseView {
        QueryResponseView { items: contents(self.items@), page_info: self.page_info@ }
    }
}

} // verus!
