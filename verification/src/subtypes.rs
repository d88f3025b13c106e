//! The descriptor for the subtypes endpoint, one of the enumerated-value
//! endpoints: no parameters, a list of plain strings back.

use vstd::prelude::*;
use vstd::string::StringExecFns;

use crate::request::Requestable;

verus! {

/// The (parameterless) request to the subtypes endpoint.
#[derive(Debug, Clone)]
pub struct GetSubtypes;

impl Default for GetSubtypes {
    fn default() -> (r: GetSubtypes) {
        GetSubtypes
    }
}

impl Requestable for GetSubtypes {
    open spec fn spec_endpoint(&self) -> Seq<char> {
        "subtypes"@
    }

    open spec fn spec_params(&self) -> Seq<(Seq<char>, Seq<char>)> {
        Seq::empty()
    }

    fn endpoint(&self) -> (r: String) {
        "subtypes".to_owned()
    }

    fn params(&self) -> (r: Vec<(String, String)>) {
        let ret: Vec<(String, String)> = Vec::new();
        proof {
            assert(ret.deep_view() =~= self.spec_params());
        }
        ret
    }
}

} // verus!
