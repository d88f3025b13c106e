//! The descriptor for the supertypes endpoint, one of the enumerated-value
//! endpoints: no parameters, a list of plain strings back.

use vstd::prelude::*;
use vstd::string::StringExecFns;

use crate::request::Requestable;

verus! {

/// The (parameterless) request to the supertypes endpoint.
#[derive(Debug, Clone)]
pub struct GetSupertypes;

impl Default for GetSupertypes {
    fn default() -> (r: GetSupertypes) {
        GetSupertypes
    }
}

impl Requestable for GetSupertypes {
    open spec fn spec_endpoint(&self) -> Seq<char> {
        "supertypes"@
    }

    open spec fn spec_params(&self) -> Seq<(Seq<char>, Seq<char>)> {
        Seq::empty()
    }

    fn endpoint(&self) -> (r: String) {
        "supertypes".to_owned()
    }

    fn params(&self) -> (r: Vec<(String, String)>) {
        let ret: Vec<(String, String)> = Vec::new();
        proof {
            assert(ret.deep_view() =~= self.spec_params());
        }
        ret
    }
}

} // verus!
