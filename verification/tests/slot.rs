use anytime::Slot;

#[test]
fn new_slot_is_empty_and_open() {
    let slot: Slot<u32> = Slot::new();
    assert!(!slot.is_final());
    assert!(!slot.is_ready());
}

#[test]
fn slot_update_stores_until_frozen() {
    let mut slot: Slot<u32> = Slot::new();
    assert!(slot.update(1));
    assert!(slot.is_ready());
    assert!(!slot.is_final());
    assert!(slot.update(2));
    assert_eq!(slot.commit(), Some(2));
    assert!(slot.is_final());
    assert!(!slot.update(3));
    assert_eq!(slot.commit(), Some(2));
    assert!(slot.is_final());
}

#[test]
fn slot_commit_of_nothing_freezes_nothing_in() {
    let mut slot: Slot<u32> = Slot::new();
    assert_eq!(slot.commit(), None);
    assert!(slot.is_final());
    assert!(slot.is_ready());
    assert!(!slot.update(5));
    assert_eq!(slot.commit(), None);
}

#[test]
fn slot_update_then_commit_reads_the_update() {
    let mut slot: Slot<char> = Slot::new();
    assert!(slot.update('a'));
    assert_eq!(slot.commit(), Some('a'));
}

#[test]
fn slot_commit_then_update_drops_the_update() {
    let mut slot: Slot<char> = Slot::new();
    assert!(slot.update('a'));
    assert_eq!(slot.commit(), Some('a'));
    assert!(!slot.update('b'));
    assert_eq!(slot.commit(), Some('a'));
}

#[test]
fn slot_commits_agree_across_a_history() {
    let mut slot: Slot<u16> = Slot::new();
    let mut seen: Vec<Option<u16>> = Vec::new();
    for round in 0..6u16 {
        slot.update(round);
        if round >= 2 {
            seen.push(slot.commit());
        }
    }
    assert_eq!(seen, vec![Some(2); 4]);
}

#[test]
fn slot_keeps_an_owned_candidate() {
    let mut slot: Slot<Vec<u8>> = Slot::new();
    assert!(slot.update(vec![1, 2, 3]));
    let mut copy = slot.commit().unwrap();
    copy.push(4);
    assert_eq!(slot.commit(), Some(vec![1, 2, 3]));
}
