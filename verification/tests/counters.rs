use indexer::counters::{Counters, Totals};

#[test]
fn new_counters_are_zero() {
    let c = Counters::new();
    assert_eq!(
        c.snapshot(),
        Totals { blocks: 0, transactions: 0, msgs: 0, ibc_msgs: 0, send_msgs: 0 }
    );
    assert_eq!(Totals::new(), c.snapshot());
}

#[test]
fn absorb_adds_each_count() {
    let mut c = Counters::new();
    c.absorb(Totals { blocks: 10, transactions: 2, msgs: 7, ibc_msgs: 2, send_msgs: 4 });
    c.absorb(Totals { blocks: 5, transactions: 1, msgs: 3, ibc_msgs: 1, send_msgs: 0 });
    assert_eq!(
        c.snapshot(),
        Totals { blocks: 15, transactions: 3, msgs: 10, ibc_msgs: 3, send_msgs: 4 }
    );
}

#[test]
fn totals_never_go_down() {
    let mut c = Counters::new();
    let mut before = c.snapshot();
    for i in 0..20u64 {
        c.absorb(Totals { blocks: i, transactions: i % 3, msgs: 2 * i, ibc_msgs: i % 3, send_msgs: i % 2 });
        let after = c.snapshot();
        assert!(after.blocks >= before.blocks);
        assert!(after.transactions >= before.transactions);
        assert!(after.msgs >= before.msgs);
        assert!(after.ibc_msgs >= before.ibc_msgs);
        assert!(after.send_msgs >= before.send_msgs);
        before = after;
    }
}

#[test]
fn totals_stop_at_the_largest_number() {
    let mut c = Counters::new();
    c.absorb(Totals { blocks: u64::MAX - 1, transactions: 1, msgs: u64::MAX, ibc_msgs: 0, send_msgs: 0 });
    c.absorb(Totals { blocks: 5, transactions: 1, msgs: 1, ibc_msgs: 0, send_msgs: 0 });
    assert_eq!(
        c.snapshot(),
        Totals { blocks: u64::MAX, transactions: 2, msgs: u64::MAX, ibc_msgs: 0, send_msgs: 0 }
    );
}

#[test]
fn plus_adds_two_sets_of_counts() {
    let a = Totals { blocks: 1, transactions: 2, msgs: 3, ibc_msgs: 4, send_msgs: 5 };
    let b = Totals { blocks: 10, transactions: 20, msgs: 30, ibc_msgs: 40, send_msgs: 50 };
    assert_eq!(
        a.plus(b),
        Totals { blocks: 11, transactions: 22, msgs: 33, ibc_msgs: 44, send_msgs: 55 }
    );
    assert_eq!(a.plus(Totals::new()), a);
}
