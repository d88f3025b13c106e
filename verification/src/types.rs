//! The descriptor for the types endpoint, one of the enumerated-value
//! endpoints: no parameters, a list of plain strings back.

use vstd::prelude::*;
use vstd::string::StringExecFns;

use crate::request::Requestable;

verus! {

/// The (parameterless) request to the types endpoint.
#[derive(Debug, Clone)]
pub struct GetTypes;

impl Default for GetTypes {
    fn default() -> (r: GetTypes) {
        GetTypes
    }
}

impl Requestable for GetTypes {
    open spec fn spec_endpoint(&self) -> Seq<char> {
        "types"@
    }

    open spec fn spec_params(&self) -> Seq<(Seq<char>, Seq<char>)> {
        Seq::empty()
    }

    fn endpoint(&self) -> (r: String) {
        "types".to_owned()
    }

    fn params(&self) -> (r: Vec<(String, String)>) {
        let ret: Vec<(String, String)> = Vec::new();
        proof {
            assert(ret.deep_view() =~= self.spec_params());
        }
        ret
    }
}

} // verus!
