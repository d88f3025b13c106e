//! The card data model: a plain immutable record of catalogue fields.
//!
//! Two cards are equal exactly when their identifiers are equal, so two
//! fetches of the same card with different selected fields still compare
//! equal. Price metadata, quoted in fractional currency amounts, lives in
//! the unverified transport layer's wire records, not in this model.

use std::collections::HashMap;
use vstd::prelude::*;

verus! {

/// An ability on a card.
#[derive(Debug, Clone)]
pub struct Ability {
    /// The name of the ability.
    pub name: String,
    /// The text value of the ability.
    pub text: String,
    /// The kind of the ability, such as Ability or Pokémon-Power.
    pub ability_type: String,
}

/// An attack on a card.
#[derive(Debug, Clone)]
pub struct Attack {
    /// The cost of the attack, a list of energy types.
    pub cost: Vec<String>,
    /// The name of the attack.
    pub name: String,
    /// The text or description of the attack.
    pub text: String,
    /// The damage amount of the attack.
    pub damage: Option<String>,
    /// The total cost of the attack: two fire energies cost 2.
    pub converted_energy_cost: i32,
}

/// The URLs to a card's normal and hi-res images.
#[derive(Debug, Clone)]
pub struct CardImages {
    /// A smaller, lower-res image URL.
    pub small: String,
    /// A larger, higher-res image URL.
    pub large: String,
}

/// The TCGPlayer store metadata for a card.
#[derive(Debug, Clone)]
pub struct TCGPlayer {
    /// The URL to the TCGPlayer store page for the card.
    pub url: String,
    /// The date the store data was last updated, as YYYY/MM/DD.
    pub updated_at: String,
}

/// The Card Market store metadata for a card.
#[derive(Debug, Clone)]
pub struct CardMarket {
    /// The URL to the cardmarket store page for the card.
    pub url: String,
    /// The date the store data was last updated, as YYYY/MM/DD.
    pub updated_at: String,
}

/// A Pokémon card. Every field but the identifier is optional: a select
/// parameter narrows what the remote fills in.
#[derive(Debug, Clone)]
pub struct Card {
    /// Unique identifier for the card.
    pub id: String,
    /// The name of the card.
    pub name: Option<String>,
    /// The supertype of the card, such as Pokémon, Energy, or Trainer.
    pub supertype: Option<String>,
    /// The subtypes of the card, such as Basic, EX, Mega, Rapid Strike.
    pub subtypes: Option<Vec<String>>,
    /// The level of the card.
    pub level: Option<String>,
    /// The hit points of the card.
    pub hp: Option<String>,
    /// The energy types of the card, such as Fire, Water, Grass.
    pub types: Option<Vec<String>>,
    /// Which Pokémon this card evolves from.
    pub evolves_from: Option<String>,
    /// Which Pokémon this card evolves to; can be several.
    pub evolves_to: Option<Vec<String>>,
    /// Any rules on the card, such as VMAX or trainer rules.
    pub rules: Option<Vec<String>>,
    /// The ancient trait of the card, as its name and text.
    pub ancient_trait: Option<HashMap<String, String>>,
    /// The abilities of the card.
    pub abilities: Option<Vec<Ability>>,
    /// The attacks of the card.
    pub attacks: Option<Vec<Attack>>,
    /// The weaknesses of the card, each a type-and-value pair.
    pub weaknesses: Option<Vec<HashMap<String, String>>>,
    /// The resistances of the card, each a type-and-value pair.
    pub resistances: Option<Vec<HashMap<String, String>>>,
    /// The energy types it costs to retreat the card.
    pub retreat_cost: Option<Vec<String>>,
    /// The number of energies in the retreat cost.
    pub converted_retreat_cost: Option<i32>,
    /// The set the card belongs to.
    pub set: Option<crate::set::CardSet>,
    /// The number of the card within its set.
    pub number: Option<String>,
    /// The artist of the card.
    pub artist: Option<String>,
    /// The rarity of the card, such as Common or Rare Rainbow.
    pub rarity: Option<String>,
    /// The flavor text printed near the bottom of some cards.
    pub flavor_text: Option<String>,
    /// The national pokedex numbers of the Pokémon on the card.
    pub national_pokedex_numbers: Option<Vec<i32>>,
    /// The tournament legalities of the card, by format.
    pub legalities: Option<HashMap<String, String>>,
    /// The regulation mark of the card.
    pub regulation_mark: Option<String>,
    /// The images of the card.
    pub images: Option<CardImages>,
    /// The TCGPlayer store metadata of the card.
    pub tcgplayer: Option<TCGPlayer>,
    /// The Card Market store metadata of the card.
    pub cardmarket: Option<CardMarket>,
}

impl PartialEq for Card {
    /// Cards are compared by identifier alone.
    fn eq(&self, other: &Card) -> (r: bool) {
        self.id.eq(&other.id)
    }
}

impl vstd::std_specs::cmp::PartialEqSpecImpl for Card {
    open spec fn obeys_eq_spec() -> bool {
        true
    }

    open spec fn eq_spec(&self, other: &Card) -> bool {
        self.id@ == other.id@
    }
}

impl Eq for Card {

}

} // verus!
