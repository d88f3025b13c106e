//! The pagination state machine, one step at a time: the stop rule, page
//! advancement, and result wrapping.

use pokemontcgio::Paginator;

#[test]
fn pinned_page_never_asks_for_more() {
    let mut pag: Paginator<u64> = Paginator::begin(Some(3));
    assert_eq!(pag.next_page(), Some(3));
    // Plenty of further pages exist, yet a pinned page means one fetch.
    let more = pag.absorb(Some(vec![1, 2]), 3, 2, 100);
    assert!(!more);
    assert_eq!(pag.finish(), Some(vec![1, 2]));
}

#[test]
fn unbounded_walk_advances_past_the_implicit_first_page() {
    let mut pag: Paginator<u64> = Paginator::begin(None);
    // The first request carries no page parameter at all.
    assert_eq!(pag.next_page(), None);
    let more = pag.absorb(Some(vec![10, 20]), 1, 2, 6);
    assert!(more);
    // The walk resumes one beyond the implicit first page.
    assert_eq!(pag.next_page(), Some(2));
    let more = pag.absorb(Some(vec![30, 40]), 2, 2, 6);
    assert!(more);
    assert_eq!(pag.next_page(), Some(3));
    let more = pag.absorb(Some(vec![50, 60]), 3, 2, 6);
    assert!(!more);
    assert_eq!(pag.finish(), Some(vec![10, 20, 30, 40, 50, 60]));
}

#[test]
fn walk_goes_on_until_the_partial_last_page() {
    // 260 items at 250 per page: page one does not cover the total, so
    // the walk continues into the partial second page, then stops.
    let mut pag: Paginator<u64> = Paginator::begin(None);
    let more = pag.absorb(Some(vec![1; 250]), 1, 250, 260);
    assert!(more);
    assert_eq!(pag.next_page(), Some(2));
    let more = pag.absorb(Some(vec![2; 10]), 2, 250, 260);
    assert!(!more);
    assert_eq!(pag.finish().map(|v| v.len()), Some(260));
}

#[test]
fn walk_stops_exactly_when_the_pages_cover_the_total() {
    // An odd total at page size two: after page one two of three items
    // are in, so the walk continues; page two covers the total.
    let mut pag: Paginator<u64> = Paginator::begin(None);
    let more = pag.absorb(Some(vec![1, 2]), 1, 2, 3);
    assert!(more);
    let more = pag.absorb(Some(vec![3]), 2, 2, 3);
    assert!(!more);
    assert_eq!(pag.finish(), Some(vec![1, 2, 3]));
}

#[test]
fn absent_page_data_counts_as_zero_items() {
    let mut pag: Paginator<u64> = Paginator::begin(Some(1));
    let more = pag.absorb(None, 1, 5, 0);
    assert!(!more);
    // Nothing accumulated: the walk reports absence, not an empty list.
    assert_eq!(pag.finish(), None);
}

#[test]
fn malformed_page_size_stops_at_once() {
    // A nonpositive page size can never cover any total: the walk stops
    // rather than fetching forever.
    let mut pag: Paginator<u64> = Paginator::begin(None);
    let more = pag.absorb(Some(vec![9]), 1, 0, 100);
    assert!(!more);
    assert_eq!(pag.finish(), Some(vec![9]));
}
