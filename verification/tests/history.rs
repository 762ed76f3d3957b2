use basilisk::HistoryBuffer;

#[test]
fn empty_buffer() {
    let b = HistoryBuffer::new();
    assert_eq!(b.len(), 0);
}

#[test]
fn push_keeps_order() {
    let mut b = HistoryBuffer::new();
    b.push(1);
    b.push(2);
    b.push(3);
    assert_eq!(b.len(), 3);
    assert_eq!(b.get(0), 1);
    assert_eq!(b.get(1), 2);
    assert_eq!(b.get(2), 3);
}

#[test]
fn capacity_is_never_exceeded() {
    let mut b = HistoryBuffer::new();
    for i in 0..200u64 {
        b.push(i);
        assert!(b.len() <= 50);
    }
    assert_eq!(b.len(), 50);
}

#[test]
fn fifo_eviction_keeps_last_fifty() {
    let mut b = HistoryBuffer::new();
    for i in 0..75u64 {
        b.push(i);
    }
    assert_eq!(b.len(), 50);
    for j in 0..50u64 {
        assert_eq!(b.get(j as usize), 25 + j);
    }
}

#[test]
fn as_slice_matches_contents() {
    let mut b = HistoryBuffer::new();
    b.push(7);
    b.push(9);
    assert_eq!(b.as_slice(), &[7, 9]);
}
