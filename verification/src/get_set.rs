//! The descriptor for the sets/{id} endpoint: fetch one set by its
//! identifier, optionally narrowing the returned fields with a selection.

use vstd::prelude::*;
use vstd::string::{StrSliceExecFns, StringExecFns};

use crate::request::{spec_opt_param, Requestable};
use crate::text::{spec_with_required_id, with_required_id};

verus! {

/// The parameters of one request to the sets/{id} endpoint.
///
/// The id is embedded in the path as given, with no encoding or validation;
/// an id holding path-unsafe characters is a caller error.
#[derive(Debug, Clone)]
pub struct GetSet {
    /// The identifier of the set to fetch.
    pub id: String,
    /// The fields to fetch, always containing the identifier field.
    pub select: Option<String>,
}

impl GetSet {
    /// A descriptor for the set with the given id and no field selection.
    pub fn new(id: String) -> (r: GetSet)
        ensures
            r.id == id,
            r.select is None,
    {
        GetSet { id, select: None }
    }

    /// Sets the fields to fetch with the set.
    ///
    /// The identifier field is always part of the selection: `,id` is
    /// appended to a value that lacks the substring `id`.
    pub fn select(self, value: String) -> (r: GetSet)
        ensures
            r.id == self.id,
            r.select matches Some(s) && s@ == spec_with_required_id(value@),
    {
        GetSet { select: Some(with_required_id(value)), ..self }
    }
}

impl Requestable for GetSet {
    open spec fn spec_endpoint(&self) -> Seq<char> {
        "sets/"@ + self.id@
    }

    open spec fn spec_params(&self) -> Seq<(Seq<char>, Seq<char>)> {
        spec_opt_param(
            "select"@,
            match self.select {
                Option::None => Option::None,
                Option::Some(s) => Option::Some(s@),
            },
        )
    }

    fn endpoint(&self) -> (r: String) {
        let mut r = "sets/".to_owned();
        r.append(self.id.as_str());
        r
    }

    fn params(&self) -> (r: Vec<(String, String)>) {
        let mut ret: Vec<(String, String)> = Vec::new();
        match &self.select {
            Option::Some(select) => {
                ret.push(("select".to_owned(), select.clone()));
            },
            Option::None => {},
        }
        proof {
            assert(ret.deep_view() =~= self.spec_params());
        }
        ret
    }
}

} // verus!
