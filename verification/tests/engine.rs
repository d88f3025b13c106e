//! The whole search flow run against deterministic fixture remotes: page
//! walking, stop boundaries, idempotence, and get-by-id absence.

use pokemontcgio::{get_by_id_fixture, search_fixture, FixtureRemote, FixtureStore};

fn remote(n: u64, default_page_size: u32) -> FixtureRemote<u64> {
    FixtureRemote { items: (0..n).collect(), default_page_size }
}

#[test]
fn exact_multiple_stops_after_the_last_full_page() {
    // total_count = 10, page_size = 5: exactly 2 fetches, never a trailing
    // empty-page request, and every item accumulated.
    let remote = remote(10, 5);
    let (found, fetches) = search_fixture(&remote, None, None);
    assert_eq!(fetches, 2);
    assert_eq!(found, Some((0..10).collect()));
}

#[test]
fn unbounded_walk_collects_the_whole_result() {
    let remote = remote(500, 250);
    let (found, fetches) = search_fixture(&remote, None, None);
    assert_eq!(fetches, 2);
    assert_eq!(found.as_ref().map(Vec::len), Some(500));
    assert_eq!(found, Some((0..500).collect()));
}

#[test]
fn total_smaller_than_one_page_takes_a_single_fetch() {
    let remote = remote(3, 250);
    let (found, fetches) = search_fixture(&remote, None, None);
    assert_eq!(fetches, 1);
    assert_eq!(found, Some(vec![0, 1, 2]));
}

#[test]
fn partial_last_page_is_fetched_like_any_other() {
    // total_count = 260, page_size = 250: page one leaves ten items
    // behind, so the walk fetches the partial second page too — exactly
    // two fetches, all 260 items accumulated.
    let remote = remote(260, 250);
    let (found, fetches) = search_fixture(&remote, None, None);
    assert_eq!(fetches, 2);
    assert_eq!(found.as_ref().map(Vec::len), Some(260));
    assert_eq!(found, Some((0..260).collect()));
}

#[test]
fn off_by_one_remainders_are_collected_in_full() {
    // Boundaries around the page size: odd totals, remainder of one, and
    // a remainder one short of a full page.
    let (found, fetches) = search_fixture(&remote(3, 250), None, Some(2));
    assert_eq!(fetches, 2);
    assert_eq!(found, Some(vec![0, 1, 2]));
    let (found, fetches) = search_fixture(&remote(11, 250), None, Some(5));
    assert_eq!(fetches, 3);
    assert_eq!(found, Some((0..11).collect()));
    let (found, fetches) = search_fixture(&remote(9, 250), None, Some(5));
    assert_eq!(fetches, 2);
    assert_eq!(found, Some((0..9).collect()));
}

#[test]
fn empty_result_reports_absence_not_an_empty_list() {
    let remote = remote(0, 250);
    let (found, fetches) = search_fixture(&remote, None, None);
    assert_eq!(fetches, 1);
    assert_eq!(found, None);
}

#[test]
fn pinned_page_of_size_two_returns_exactly_two_items() {
    let remote = remote(10, 250);
    let (found, fetches) = search_fixture(&remote, Some(1), Some(2));
    assert_eq!(fetches, 1);
    assert_eq!(found, Some(vec![0, 1]));
    let (found, fetches) = search_fixture(&remote, Some(2), Some(2));
    assert_eq!(fetches, 1);
    assert_eq!(found, Some(vec![2, 3]));
}

#[test]
fn pinned_page_is_fetched_once_even_when_more_pages_exist() {
    let remote = remote(500, 250);
    let (found, fetches) = search_fixture(&remote, Some(1), None);
    assert_eq!(fetches, 1);
    assert_eq!(found.as_ref().map(Vec::len), Some(250));
}

#[test]
fn pinned_page_beyond_the_result_reports_absence() {
    let remote = remote(10, 250);
    let (found, fetches) = search_fixture(&remote, Some(7), Some(5));
    assert_eq!(fetches, 1);
    assert_eq!(found, None);
}

#[test]
fn executing_the_same_configuration_twice_yields_equal_results() {
    let remote = remote(500, 250);
    let first = search_fixture(&remote, None, Some(100));
    let second = search_fixture(&remote, None, Some(100));
    assert_eq!(first, second);
    let first = search_fixture(&remote, Some(2), Some(7));
    let second = search_fixture(&remote, Some(2), Some(7));
    assert_eq!(first, second);
}

#[test]
fn get_by_id_returns_the_matching_record() {
    let store = FixtureStore {
        records: vec![("xy1-1".to_string(), 7u64), ("swsh1-2".to_string(), 9u64)],
    };
    assert_eq!(get_by_id_fixture(&store, "xy1-1"), Some(7));
    assert_eq!(get_by_id_fixture(&store, "swsh1-2"), Some(9));
}

#[test]
fn get_by_id_with_no_matching_record_is_absent_not_an_error() {
    let store = FixtureStore { records: vec![("xy1-1".to_string(), 7u64)] };
    assert_eq!(get_by_id_fixture(&store, "xy1-99"), None);
}
