use gmusic::pagination::PageAggregator;

// A stub paged endpoint: pages with cursors "A", "B", then absent.
fn stub_page(cursor: &Option<String>, calls: &mut u32) -> (Vec<u32>, Option<String>) {
    *calls += 1;
    match cursor.as_deref() {
        None => (vec![1, 2], Some("A".to_owned())),
        Some("A") => (vec![3], Some("B".to_owned())),
        Some("B") => (vec![4, 5], None),
        Some(other) => panic!("unexpected cursor {}", other),
    }
}

#[test]
fn fetch_all_follows_cursors_and_concatenates_in_order() {
    let mut calls: u32 = 0;
    let mut aggregator: PageAggregator<u32> = PageAggregator::new();
    while !aggregator.is_done() {
        let cursor = aggregator.next_cursor().clone();
        let (items, next) = stub_page(&cursor, &mut calls);
        aggregator.absorb_page(items, next);
    }
    assert_eq!(calls, 3);
    assert_eq!(aggregator.into_items(), vec![1, 2, 3, 4, 5]);
}

#[test]
fn single_page_aggregation() {
    let mut aggregator: PageAggregator<&str> = PageAggregator::new();
    assert!(!aggregator.is_done());
    assert!(aggregator.next_cursor().is_none());
    aggregator.absorb_page(vec!["only"], None);
    assert!(aggregator.is_done());
    assert_eq!(aggregator.into_items(), vec!["only"]);
}

#[test]
fn empty_pages_still_terminate_on_absent_cursor() {
    let mut aggregator: PageAggregator<u32> = PageAggregator::new();
    aggregator.absorb_page(Vec::new(), Some("next".to_owned()));
    assert!(!aggregator.is_done());
    assert_eq!(aggregator.next_cursor().as_deref(), Some("next"));
    aggregator.absorb_page(Vec::new(), None);
    assert!(aggregator.is_done());
    assert_eq!(aggregator.into_items(), Vec::<u32>::new());
}
