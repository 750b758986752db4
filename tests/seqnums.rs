use sixtop::seqnums::{Inconsistency, SeqNum, SeqNums, DEFAULT_SEQNUM};
use sixtop::types::NeighborID;

const TEST_NEIGHBOR: NeighborID = 22;
const TEST_SEQNUM: SeqNum = 3;

#[test]
fn test_add_neighbor() {
    let mut test_seqnums = SeqNums::new();

    test_seqnums.add_neighbor(TEST_NEIGHBOR, TEST_SEQNUM);

    assert_eq!(*(test_seqnums.get_seqnum(TEST_NEIGHBOR).unwrap()), TEST_SEQNUM);
}

#[test]
fn test_get_seqnum() {
    let mut test_seqnums = SeqNums::new();
    test_seqnums.add_neighbor(TEST_NEIGHBOR, TEST_SEQNUM);

    let result = test_seqnums.get_seqnum(TEST_NEIGHBOR);

    assert_eq!(*result.unwrap(), TEST_SEQNUM);
}

#[test]
fn test_reset_seqnum() {
    let mut test_seqnums = SeqNums::new();
    test_seqnums.add_neighbor(TEST_NEIGHBOR, TEST_SEQNUM);

    test_seqnums.reset_seqnum(TEST_NEIGHBOR);

    let result = test_seqnums.get_seqnum(TEST_NEIGHBOR).unwrap();
    assert_eq!(*result, 0);
}

#[test]
fn test_increment_seqnum() {
    let mut test_seqnums = SeqNums::new();
    test_seqnums.add_neighbor(TEST_NEIGHBOR, TEST_SEQNUM);
    let next_seqnum = TEST_SEQNUM + 1;

    test_seqnums.increment_seqnum(TEST_NEIGHBOR);

    let result = test_seqnums.get_seqnum(TEST_NEIGHBOR).unwrap();
    assert_eq!(*result, next_seqnum);
}

#[test]
fn test_increment_seqnum_wraparound() {
    let mut test_seqnums = SeqNums::new();
    let max_seqnum = 0xFF;
    test_seqnums.add_neighbor(TEST_NEIGHBOR, max_seqnum);

    test_seqnums.increment_seqnum(TEST_NEIGHBOR);

    let result = test_seqnums.get_seqnum(TEST_NEIGHBOR).unwrap();
    assert_eq!(*result, 1);
}

#[test]
fn unknown_neighbor_has_no_seqnum() {
    let mut seqnums = SeqNums::default();
    assert_eq!(seqnums.get_seqnum(5), None);
    seqnums.increment_seqnum(5);
    seqnums.reset_seqnum(5);
    assert_eq!(seqnums.get_seqnum(5), None);
}

#[test]
fn guaranteed_get_records_unseen_neighbor() {
    let mut seqnums = SeqNums::new();
    assert_eq!(seqnums.guaranteed_get_seqnum(8), DEFAULT_SEQNUM);
    assert_eq!(seqnums.get_seqnum(8), Some(&0));
    seqnums.add_neighbor(8, 40);
    assert_eq!(seqnums.guaranteed_get_seqnum(8), 40);
}

#[test]
fn first_contact_is_accepted() {
    let mut seqnums = SeqNums::new();
    assert_eq!(seqnums.update_seqnum(TEST_NEIGHBOR, 0), Ok(0));
    assert_eq!(seqnums.get_seqnum(TEST_NEIGHBOR), Some(&0));
    assert_eq!(seqnums.update_seqnum(9, 77), Ok(77));
    assert_eq!(seqnums.get_seqnum(9), Some(&77));
}

#[test]
fn zero_after_activity_is_reset_detection() {
    let mut seqnums = SeqNums::new();
    seqnums.add_neighbor(TEST_NEIGHBOR, 5);
    assert_eq!(seqnums.update_seqnum(TEST_NEIGHBOR, 0), Err(Inconsistency));
    assert_eq!(seqnums.get_seqnum(TEST_NEIGHBOR), Some(&5));
}

#[test]
fn zero_while_stored_zero_is_accepted() {
    let mut seqnums = SeqNums::new();
    seqnums.add_neighbor(TEST_NEIGHBOR, 0);
    assert_eq!(seqnums.update_seqnum(TEST_NEIGHBOR, 0), Ok(0));
    assert_eq!(seqnums.get_seqnum(TEST_NEIGHBOR), Some(&0));
}

#[test]
fn greater_seqnum_is_accepted_with_stored_value() {
    let mut seqnums = SeqNums::new();
    seqnums.add_neighbor(TEST_NEIGHBOR, 5);
    assert_eq!(seqnums.update_seqnum(TEST_NEIGHBOR, 6), Ok(5));
    assert_eq!(seqnums.get_seqnum(TEST_NEIGHBOR), Some(&5));
}

#[test]
fn replayed_or_older_seqnum_is_inconsistent() {
    let mut seqnums = SeqNums::new();
    seqnums.add_neighbor(TEST_NEIGHBOR, 5);
    assert_eq!(seqnums.update_seqnum(TEST_NEIGHBOR, 5), Err(Inconsistency));
    assert_eq!(seqnums.update_seqnum(TEST_NEIGHBOR, 4), Err(Inconsistency));
    assert_eq!(seqnums.get_seqnum(TEST_NEIGHBOR), Some(&5));
}

#[test]
fn counter_never_returns_to_zero() {
    let mut seqnums = SeqNums::new();
    seqnums.add_neighbor(1, 0);
    for _ in 0..600 {
        seqnums.increment_seqnum(1);
        assert_ne!(*seqnums.get_seqnum(1).unwrap(), 0);
    }
}
