//! The descriptor for the sets search endpoint: an optional query,
//! pagination controls, an ordering and a field selection, rendered as
//! ordered query parameters.

use vstd::prelude::*;
use vstd::string::StringExecFns;

use crate::request::{spec_opt_digits, spec_opt_param, spec_opt_view, Requestable};
use crate::text::{spec_with_required_id, u32_to_string, with_required_id};

verus! {

/// The parameters of one request to the sets search endpoint.
///
/// Every field is optional; a field that was never set contributes no query
/// parameter at all. A set `page` pins the search to that single page, while
/// an unset `page` makes the terminal operation walk every page.
#[derive(Debug, Clone)]
pub struct SearchSets {
    /// The search query, rendered as the `q` parameter.
    pub query: Option<String>,
    /// The page to fetch, rendered as the `page` parameter.
    pub page: Option<u32>,
    /// The number of results per page, rendered as the `pageSize` parameter.
    pub page_size: Option<u32>,
    /// The ordering of the results, rendered as the `orderBy` parameter.
    pub order_by: Option<String>,
    /// The fields to fetch, rendered as the `select` parameter and always
    /// containing the identifier field.
    pub select: Option<String>,
}

impl Default for SearchSets {
    /// A descriptor with no field set: no query parameters at all.
    fn default() -> (r: SearchSets)
        ensures
            r.query is None,
            r.page is None,
            r.page_size is None,
            r.order_by is None,
            r.select is None,
    {
        SearchSets { query: None, page: None, page_size: None, order_by: None, select: None }
    }
}

impl SearchSets {
    /// Sets the query to search with.
    pub fn query(self, value: String) -> (r: SearchSets)
        ensures
            r == (SearchSets { query: Some(value), ..self }),
    {
        SearchSets { query: Some(value), ..self }
    }

    /// Pins the search to one page of results.
    pub fn page(self, value: u32) -> (r: SearchSets)
        ensures
            r == (SearchSets { page: Some(value), ..self }),
    {
        SearchSets { page: Some(value), ..self }
    }

    /// Sets the number of results per page.
    pub fn page_size(self, value: u32) -> (r: SearchSets)
        ensures
            r == (SearchSets { page_size: Some(value), ..self }),
    {
        SearchSets { page_size: Some(value), ..self }
    }

    /// Sets the ordering of the results.
    pub fn order_by(self, value: String) -> (r: SearchSets)
        ensures
            r == (SearchSets { order_by: Some(value), ..self }),
    {
        SearchSets { order_by: Some(value), ..self }
    }

    /// Sets the fields to fetch with the sets.
    ///
    /// The identifier field is always part of the selection: `,id` is
    /// appended to a value that lacks the substring `id`.
    pub fn select(self, value: String) -> (r: SearchSets)
        ensures
            r.select matches Some(s) && s@ == spec_with_required_id(value@),
            r.query == self.query,
            r.page == self.page,
            r.page_size == self.page_size,
            r.order_by == self.order_by,
    {
        SearchSets { select: Some(with_required_id(value)), ..self }
    }

    /// Replaces the page field, as the pagination loop does between fetches.
    pub fn with_page_option(self, value: Option<u32>) -> (r: SearchSets)
        ensures
            r == (SearchSets { page: value, ..self }),
    {
        SearchSets { page: value, ..self }
    }
}

impl Requestable for SearchSets {
    open spec fn spec_endpoint(&self) -> Seq<char> {
        "sets"@
    }

    open spec fn spec_params(&self) -> Seq<(Seq<char>, Seq<char>)> {
        spec_opt_param("q"@, spec_opt_view(self.query)) + spec_opt_param(
            "page"@,
            spec_opt_digits(self.page),
        ) + spec_opt_param("pageSize"@, spec_opt_digits(self.page_size)) + spec_opt_param(
            "orderBy"@,
            spec_opt_view(self.order_by),
        ) + spec_opt_param("select"@, spec_opt_view(self.select))
    }

    fn endpoint(&self) -> (r: String) {
        "sets".to_owned()
    }

    fn params(&self) -> (r: Vec<(String, String)>) {
        let mut ret: Vec<(String, String)> = Vec::new();
        match &self.query {
            Option::Some(q) => {
                ret.push(("q".to_owned(), q.clone()));
            },
            Option::None => {},
        }
        match &self.page {
            Option::Some(page) => {
                ret.push(("page".to_owned(), u32_to_string(*page)));
            },
            Option::None => {},
        }
        match &self.page_size {
            Option::Some(page_size) => {
                ret.push(("pageSize".to_owned(), u32_to_string(*page_size)));
            },
            Option::None => {},
        }
        match &self.order_by {
            Option::Some(order) => {
                ret.push(("orderBy".to_owned(), order.clone()));
            },
            Option::None => {},
        }
        match &self.select {
            Option::Some(select) => {
                ret.push(("select".to_owned(), select.clone()));
            },
            Option::None => {},
        }
        proof {
            assert(ret.deep_view() =~= self.spec_params());
        }
        ret
    }
}

} // verus!
