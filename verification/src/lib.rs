//! A typed client library for the pokemontcg.io REST API.
//!
//! Request descriptors render each endpoint's path and query parameters,
//! a paginator walks every page of a search when no page is pinned, and
//! fixture remotes let the whole flow be exercised without a network.

mod card;
mod error;
mod fixture;
mod get_card;
mod get_set;
mod pagination;
mod rarities;
mod request;
mod response;
mod search_cards;
mod set;
mod search_sets;
mod subtypes;
mod supertypes;
mod text;
mod types;

pub use card::{Ability, Attack, Card, CardImages, CardMarket, TCGPlayer};
pub use error::Error;
pub use fixture::{lemma_exact_multiple_stops_after_last_page, lemma_execute_idempotent, lemma_pinned_page_full, lemma_unbounded_walk_collects_all, FixtureRemote, FixtureStore, get_by_id_fixture, spec_find, search_fixture, spec_page_slice, spec_fetches, spec_collected, spec_search_result, spec_wrap, spec_opt_vec_view, min_int};
pub use get_card::GetCard;
pub use get_set::GetSet;
pub use pagination::{Paginator, spec_stop, spec_data_seq, spec_page_or_one, spec_next_page};
pub use rarities::GetRarities;
pub use request::Requestable;
pub use response::{ApiResponse, PaginatedApiResponse};
pub use search_cards::SearchCards;
pub use set::{CardSet, SetImages};
pub use search_sets::SearchSets;
pub use subtypes::GetSubtypes;
pub use supertypes::GetSupertypes;
pub use types::GetTypes;
pub use text::{contains_id, lemma_select_id_policy, seq_contains_id, spec_with_required_id, spec_u32_digits, spec_digit, with_required_id, u32_to_string};
