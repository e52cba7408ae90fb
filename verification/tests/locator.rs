use indexer::locator::{BlockReport, Locator};

fn locate(low: u64, high: u64, first_present: u64) -> (u64, usize) {
    let mut search = Locator::new(low, high);
    let mut queries = 0;
    while let Some(mid) = search.probe() {
        let report = if mid >= first_present { BlockReport::Present } else { BlockReport::Absent };
        search = search.answer(report);
        queries += 1;
    }
    (search.result(), queries)
}

#[test]
fn finds_the_first_present_height() {
    assert_eq!(locate(0, 100, 1).0, 1);
    assert_eq!(locate(0, 100, 37).0, 37);
    assert_eq!(locate(0, 100, 100).0, 100);
    assert_eq!(locate(41, 42, 42).0, 42);
}

#[test]
fn finds_every_boundary_of_a_small_chain() {
    for high in 1..40u64 {
        for first in 1..=high {
            assert_eq!(locate(0, high, first).0, first);
        }
    }
}

#[test]
fn asks_no_more_than_the_logarithm() {
    let (height, queries) = locate(0, 1 << 40, 123_456_789);
    assert_eq!(height, 123_456_789);
    assert!(queries <= 40);
}

#[test]
fn settled_search_asks_nothing() {
    let search = Locator::new(9, 10);
    assert_eq!(search.probe(), None);
    assert_eq!(search.result(), 10);
}

#[test]
fn probe_is_the_midpoint() {
    let search = Locator::new(0, 100);
    assert_eq!(search.probe(), Some(50));
    assert_eq!(search.answer(BlockReport::Present), Locator { low: 0, high: 50 });
    assert_eq!(search.answer(BlockReport::Absent), Locator { low: 50, high: 100 });
}

#[test]
fn failed_query_counts_as_absent() {
    let search = Locator::new(0, 100);
    assert_eq!(search.answer(BlockReport::Failed), search.answer(BlockReport::Absent));
}

#[test]
fn works_at_the_top_of_the_range() {
    assert_eq!(locate(u64::MAX - 10, u64::MAX, u64::MAX - 3).0, u64::MAX - 3);
    assert_eq!(locate(0, u64::MAX, u64::MAX).0, u64::MAX);
}
