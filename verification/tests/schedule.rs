use indexer::schedule::{Schedule, SubRange, BATCH_SIZE, EXECUTE_SIZE};

fn windows(start: u64, end: u64) -> Vec<Vec<SubRange>> {
    let mut schedule = Schedule::new(start, end);
    let mut all = Vec::new();
    loop {
        let window = schedule.next_window();
        if window.is_empty() {
            assert!(schedule.is_done());
            return all;
        }
        all.push(window);
    }
}

#[test]
fn schedule_constants() {
    assert_eq!(BATCH_SIZE, 500);
    assert_eq!(EXECUTE_SIZE, 10);
}

#[test]
fn short_range_is_one_batch_in_one_window() {
    assert_eq!(windows(1, 100), vec![vec![SubRange { start: 1, end: 100 }]]);
}

#[test]
fn empty_range_has_no_window() {
    assert_eq!(windows(100, 100), Vec::<Vec<SubRange>>::new());
    assert_eq!(windows(200, 100), Vec::<Vec<SubRange>>::new());
    assert!(Schedule::new(5, 5).is_done());
    assert!(!Schedule::new(5, 6).is_done());
}

#[test]
fn range_of_exactly_one_batch() {
    assert_eq!(windows(0, 500), vec![vec![SubRange { start: 0, end: 500 }]]);
}

#[test]
fn one_height_more_makes_a_second_batch() {
    assert_eq!(
        windows(0, 501),
        vec![vec![SubRange { start: 0, end: 500 }, SubRange { start: 500, end: 501 }]]
    );
}

#[test]
fn ten_batches_fill_one_window() {
    let w = windows(1, 5001);
    assert_eq!(w.len(), 1);
    assert_eq!(w[0].len(), 10);
    assert_eq!(w[0][0], SubRange { start: 1, end: 501 });
    assert_eq!(w[0][9], SubRange { start: 4501, end: 5001 });
}

#[test]
fn eleventh_batch_opens_a_second_window() {
    let w = windows(1, 5002);
    assert_eq!(w.len(), 2);
    assert_eq!(w[0].len(), 10);
    assert_eq!(w[1], vec![SubRange { start: 5001, end: 5002 }]);
}

#[test]
fn batches_tile_the_range() {
    for (start, end) in [(1u64, 100u64), (0, 12_345), (7, 5_007), (1_000, 61_234), (u64::MAX - 1_234, u64::MAX)] {
        let all: Vec<SubRange> = windows(start, end).into_iter().flatten().collect();
        assert_eq!(all.len() as u64, (end - start + 499) / 500);
        assert_eq!(all.first().unwrap().start, start);
        assert_eq!(all.last().unwrap().end, end);
        for pair in all.windows(2) {
            assert_eq!(pair[0].end, pair[1].start);
            assert_eq!(pair[0].end - pair[0].start, 500);
        }
        for b in &all {
            assert!(b.start < b.end && b.end - b.start <= 500);
        }
    }
}

#[test]
fn every_window_but_the_last_is_full() {
    let w = windows(0, 500 * 25 + 3);
    assert_eq!(w.iter().map(|x| x.len()).collect::<Vec<_>>(), vec![10, 10, 6]);
}

#[test]
fn schedule_moves_on_by_one_window() {
    let mut s = Schedule::new(0, 20_000);
    let w = s.next_window();
    assert_eq!(w.len(), 10);
    assert_eq!(s, Schedule { next: 5_000, end: 20_000 });
}
