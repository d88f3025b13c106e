//! The request descriptors: endpoint paths, parameter rendering, and the
//! select-field policy, exercised on concrete values.

use pokemontcgio::{
    contains_id, u32_to_string, with_required_id, GetCard, GetRarities, GetSet, GetSubtypes,
    GetSupertypes, GetTypes, Requestable, SearchCards, SearchSets,
};

fn pair(name: &str, value: &str) -> (String, String) {
    (name.to_string(), value.to_string())
}

#[test]
fn get_card_renders_path_and_no_params() {
    let req = GetCard::new("xy1-1".to_string());
    assert_eq!(req.endpoint(), "cards/xy1-1");
    assert_eq!(req.params(), vec![]);
}

#[test]
fn get_card_select_is_sent_as_given_when_it_has_id() {
    let req = GetCard::new("xy1-1".to_string()).select("id".to_string());
    assert_eq!(req.params(), vec![pair("select", "id")]);
}

#[test]
fn get_card_select_without_required_fields_gets_id_appended() {
    let req = GetCard::new("xy1-1".to_string()).select("number,set".to_string());
    assert_eq!(req.params(), vec![pair("select", "number,set,id")]);
}

#[test]
fn get_set_renders_path_and_select() {
    let req = GetSet::new("swsh1".to_string());
    assert_eq!(req.endpoint(), "sets/swsh1");
    assert_eq!(req.params(), vec![]);
    let req = GetSet::new("swsh1".to_string()).select("total".to_string());
    assert_eq!(req.params(), vec![pair("select", "total,id")]);
}

#[test]
fn search_cards_with_nothing_set_sends_no_params() {
    let req = SearchCards::default();
    assert_eq!(req.endpoint(), "cards");
    assert_eq!(req.params(), vec![]);
}

#[test]
fn search_cards_renders_all_params_in_order() {
    let req = SearchCards::default()
        .query("name:magikarp".to_string())
        .page(2)
        .page_size(250)
        .order_by("number".to_string())
        .select("number".to_string());
    assert_eq!(
        req.params(),
        vec![
            pair("q", "name:magikarp"),
            pair("page", "2"),
            pair("pageSize", "250"),
            pair("orderBy", "number"),
            pair("select", "number,id"),
        ]
    );
}

#[test]
fn search_cards_skips_absent_fields_entirely() {
    let req = SearchCards::default().page_size(2);
    assert_eq!(req.params(), vec![pair("pageSize", "2")]);
    let req = SearchCards::default().order_by("number".to_string());
    assert_eq!(req.params(), vec![pair("orderBy", "number")]);
}

#[test]
fn search_sets_renders_all_params_in_order() {
    let req = SearchSets::default()
        .query("name:Sword & Shield".to_string())
        .page(1)
        .page_size(2)
        .order_by("releaseDate".to_string())
        .select("total".to_string());
    assert_eq!(req.endpoint(), "sets");
    assert_eq!(
        req.params(),
        vec![
            pair("q", "name:Sword & Shield"),
            pair("page", "1"),
            pair("pageSize", "2"),
            pair("orderBy", "releaseDate"),
            pair("select", "total,id"),
        ]
    );
}

#[test]
fn enumeration_endpoints_take_no_params() {
    assert_eq!(GetRarities::default().endpoint(), "rarities");
    assert_eq!(GetRarities::default().params(), vec![]);
    assert_eq!(GetSubtypes::default().endpoint(), "subtypes");
    assert_eq!(GetSubtypes::default().params(), vec![]);
    assert_eq!(GetSupertypes::default().endpoint(), "supertypes");
    assert_eq!(GetSupertypes::default().params(), vec![]);
    assert_eq!(GetTypes::default().endpoint(), "types");
    assert_eq!(GetTypes::default().params(), vec![]);
}

#[test]
fn select_appends_id_exactly_once_when_missing() {
    assert_eq!(with_required_id("number".to_string()), "number,id");
    assert_eq!(with_required_id("number,set".to_string()), "number,set,id");
    assert_eq!(with_required_id("".to_string()), ",id");
}

#[test]
fn select_leaves_values_already_containing_id_alone() {
    assert_eq!(with_required_id("id".to_string()), "id");
    assert_eq!(with_required_id("name,id".to_string()), "name,id");
    assert_eq!(with_required_id("id,name".to_string()), "id,name");
}

#[test]
fn select_misdetects_id_inside_another_word() {
    // The containment check is purely textual: "gridSize" already holds
    // the substring "id", so nothing is appended. A known sharp edge.
    assert_eq!(with_required_id("gridSize".to_string()), "gridSize");
    assert!(contains_id("gridSize"));
    assert!(!contains_id("number"));
    assert!(!contains_id("i"));
    assert!(!contains_id(""));
    assert!(contains_id("id"));
}

#[test]
fn page_numbers_render_in_decimal() {
    assert_eq!(u32_to_string(0), "0");
    assert_eq!(u32_to_string(7), "7");
    assert_eq!(u32_to_string(42), "42");
    assert_eq!(u32_to_string(250), "250");
    assert_eq!(u32_to_string(4294967295), "4294967295");
}
