//! The set data model: a plain immutable record of a printed set of cards.
//!
//! Two sets are equal exactly when their identifiers are equal, so two
//! fetches of the same set with different selected fields still compare
//! equal.

use std::collections::HashMap;
use vstd::prelude::*;

verus! {

/// The logo and symbol image URLs of a set.
#[derive(Debug, Clone)]
pub struct SetImages {
    /// The URL to the symbol image.
    pub symbol: String,
    /// The URL to the logo image.
    pub logo: String,
}

/// A printed set of cards. Every field but the identifier is optional: a
/// select parameter narrows what the remote fills in.
#[derive(Debug, Clone)]
pub struct CardSet {
    /// Unique identifier for the set.
    pub id: String,
    /// The name of the set.
    pub name: Option<String>,
    /// The series the set belongs to, like Sword and Shield or Base.
    pub series: Option<String>,
    /// The total printed on the cards, not counting secret rares.
    pub printed_total: Option<i64>,
    /// The total number of cards in the set, secret rares counted.
    pub total: Option<i64>,
    /// The tournament legalities of the set, by format.
    pub legalities: Option<HashMap<String, String>>,
    /// The code the Pokémon Trading Card Game Online identifies the set by.
    pub ptcgo_code: Option<String>,
    /// The date the set was released, as YYYY/MM/DD.
    pub release_date: Option<String>,
    /// The date and time the set was updated, as YYYY/MM/DD HH:MM:SS.
    pub updated_at: Option<String>,
    /// The symbol and logo images of the set.
    pub images: Option<SetImages>,
}

impl PartialEq for CardSet {
    /// Sets are compared by identifier alone.
    fn eq(&self, other: &CardSet) -> (r: bool) {
        self.id.eq(&other.id)
    }
}

impl vstd::std_specs::cmp::PartialEqSpecImpl for CardSet {
    open spec fn obeys_eq_spec() -> bool {
        true
    }

    open spec fn eq_spec(&self, other: &CardSet) -> bool {
        self.id@ == other.id@
    }
}

impl Eq for CardSet {

}

} // verus!
