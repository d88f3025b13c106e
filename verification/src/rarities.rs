//! The descriptor for the rarities endpoint, one of the enumerated-value
//! endpoints: no parameters, a list of plain strings back.

use vstd::prelude::*;
use vstd::string::StringExecFns;

use crate::request::Requestable;

verus! {

/// The (parameterless) request to the rarities endpoint.
#[derive(Debug, Clone)]
pub struct GetRarities;

impl Default for GetRarities {
    fn default() -> (r: GetRarities) {
        GetRarities
    }
}

impl Requestable for GetRarities {
    open spec fn spec_endpoint(&self) -> Seq<char> {
        "rarities"@
    }

    open spec fn spec_params(&self) -> Seq<(Seq<char>, Seq<char>)> {
        Seq::empty()
    }

    fn endpoint(&self) -> (r: String) {
        "rarities".to_owned()
    }

    fn params(&self) -> (r: Vec<(String, String)>) {
        let ret: Vec<(String, String)> = Vec::new();
        proof {
            assert(ret.deep_view() =~= self.spec_params());
        }
        ret
    }
}

} // verus!
