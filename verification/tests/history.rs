use lib::state::RingHistory;

#[test]
fn history_reads_back_from_latest() {
    let mut h: RingHistory<i64> = RingHistory::new(3);
    assert_eq!(h.capacity(), 3);
    assert_eq!(h.len(), 0);
    assert_eq!(h.latest(), None);
    h.push(10);
    h.push(20);
    assert_eq!(h.latest(), Some(20));
    assert_eq!(h.get(1), Some(10));
    assert_eq!(h.get(2), None);
    h.push(30);
    h.push(40);
    h.push(50);
    assert_eq!(h.len(), 3);
    assert_eq!(h.latest(), Some(50));
    assert_eq!(h.get(1), Some(40));
    assert_eq!(h.get(2), Some(30));
    assert_eq!(h.get(3), None);
}

#[test]
fn history_matches_tail_of_pushes() {
    for cap in 0..6usize {
        let mut h: RingHistory<usize> = RingHistory::new(cap);
        for n in 0..20usize {
            h.push(n);
            let kept = (n + 1).min(cap);
            assert_eq!(h.len(), kept);
            for i in 0..8usize {
                let expected = if i < kept { Some(n - i) } else { None };
                assert_eq!(h.get(i), expected);
            }
        }
    }
}

#[test]
fn history_clear_forgets() {
    let mut h: RingHistory<u8> = RingHistory::new(2);
    h.push(1);
    h.push(2);
    h.push(3);
    h.clear();
    assert_eq!(h.len(), 0);
    assert_eq!(h.latest(), None);
    assert_eq!(h.capacity(), 2);
    h.push(9);
    assert_eq!(h.latest(), Some(9));
}
