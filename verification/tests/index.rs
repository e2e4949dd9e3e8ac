use chain_staking::address::{StakedStateAddress, TendermintValidatorAddress};
use chain_staking::index::ValidatorIndex;

fn consensus(n: u8) -> TendermintValidatorAddress {
    TendermintValidatorAddress([n; 20])
}

fn owner(n: u8) -> StakedStateAddress {
    StakedStateAddress([n; 20])
}

#[test]
fn index_starts_empty() {
    let index = ValidatorIndex::new();
    assert!(index.check_wf());
    assert_eq!(index.len(), 0);
    assert_eq!(index.entry_count(), 0);
    assert_eq!(index.get(&consensus(1)), None);
    assert!(!index.contains_key(&consensus(1)));
}

#[test]
fn index_insert_adds_or_replaces() {
    let mut index = ValidatorIndex::new();
    assert_eq!(index.insert(consensus(1), owner(1)), None);
    assert_eq!(index.insert(consensus(2), owner(2)), None);
    assert_eq!(index.len(), 2);
    assert_eq!(index.get(&consensus(1)), Some(owner(1)));
    assert_eq!(index.get(&consensus(2)), Some(owner(2)));
    assert!(index.contains_key(&consensus(2)));
    assert_eq!(index.insert(consensus(1), owner(3)), Some(owner(1)));
    assert_eq!(index.len(), 2);
    assert_eq!(index.get(&consensus(1)), Some(owner(3)));
    assert_eq!(index.get(&consensus(2)), Some(owner(2)));
    assert!(index.check_wf());
}

#[test]
fn index_remove_takes_the_entry_out() {
    let mut index = ValidatorIndex::new();
    index.insert(consensus(1), owner(1));
    index.insert(consensus(2), owner(2));
    index.insert(consensus(3), owner(1));
    assert_eq!(index.remove(&consensus(2)), Some(owner(2)));
    assert_eq!(index.remove(&consensus(2)), None);
    assert_eq!(index.len(), 2);
    assert_eq!(index.get(&consensus(1)), Some(owner(1)));
    assert_eq!(index.get(&consensus(2)), None);
    assert_eq!(index.get(&consensus(3)), Some(owner(1)));
    assert!(index.check_wf());
}

#[test]
fn index_lists_each_address_once() {
    let mut index = ValidatorIndex::new();
    for n in 0..20u8 {
        index.insert(consensus(n % 7), owner(n));
    }
    assert!(index.check_wf());
    assert_eq!(index.entry_count(), 7);
    for i in 0..index.entry_count() {
        for j in 0..i {
            assert_ne!(index.entry_at(i).0, index.entry_at(j).0);
        }
        let entry = index.entry_at(i);
        assert_eq!(index.get(&entry.0), Some(entry.1));
    }
    // The owner that was put in last is the one that counts.
    assert_eq!(index.get(&consensus(0)), Some(owner(14)));
    assert_eq!(index.get(&consensus(6)), Some(owner(13)));
}
