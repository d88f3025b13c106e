//! The shape every request descriptor has: a relative endpoint path and an
//! ordered list of query parameters, both pinned down by spec functions.

use vstd::prelude::*;

verus! {

/// A request descriptor: a value that knows the relative endpoint path it
/// addresses and the ordered `(name, value)` query parameters it carries.
///
/// Only fields the caller actually set appear among the parameters; absent
/// fields are skipped entirely, never sent as empty strings.
pub trait Requestable {
    /// The endpoint path this descriptor renders to.
    spec fn spec_endpoint(&self) -> Seq<char>;

    /// The ordered query parameters this descriptor renders to.
    spec fn spec_params(&self) -> Seq<(Seq<char>, Seq<char>)>;

    /// Renders the relative endpoint path.
    fn endpoint(&self) -> (r: String)
        ensures
            r@ == self.spec_endpoint(),
    ;

    /// Renders the ordered query parameter list.
    fn params(&self) -> (r: Vec<(String, String)>)
        ensures
            r.deep_view() == self.spec_params(),
    ;
}

/// The rendering of one optional query parameter: nothing when the field is
/// absent, a single `(name, value)` pair when it is set.
pub open spec fn spec_opt_param(name: Seq<char>, value: Option<Seq<char>>) -> Seq<
    (Seq<char>, Seq<char>),
> {
    match value {
        Option::None => Seq::empty(),
        Option::Some(v) => seq![(name, v)],
    }
}

/// The view of an optional string field.
pub open spec fn spec_opt_view(value: Option<String>) -> Option<Seq<char>> {
    match value {
        Option::None => Option::None,
        Option::Some(s) => Option::Some(s@),
    }
}

/// The decimal rendering of an optional page-number field.
pub open spec fn spec_opt_digits(value: Option<u32>) -> Option<Seq<char>> {
    match value {
        Option::None => Option::None,
        Option::Some(n) => Option::Some(crate::text::spec_u32_digits(n as nat)),
    }
}

} // verus!
