use chain_staking::account::{
    ConfidentialInit, CouncilNodeMeta, NodeCommonInfo, NodeMetadata, NodeState, StakedState,
    StakedStateOpAttributes, UnbondTx, UnjailTx, Validator,
};
use chain_staking::address::{
    StakedStateAddress, TendermintValidatorAddress, TendermintValidatorPubKey, Timespec,
};
use chain_staking::coin::{Coin, CoinError, MAX_COIN};
use chain_staking::enclave::{mock_verify, AttestationInfo, VerifyError};
use chain_staking::fee::Fee;
use chain_staking::nodejoin::NodeJoinRequestTx;
use chain_staking::store::{MemoryStore, StoreStaking};
use chain_staking::table::{set_staking, StakingTable};
use chain_staking::tx_error::{
    DepositError, NodeJoinError, PublicTxError, UnbondError, UnjailError, WithdrawError,
};

const EVIDENCE_AGE: Timespec = 1_000;

fn account(n: u8) -> StakedStateAddress {
    StakedStateAddress([n; 20])
}

fn pubkey(n: u8) -> TendermintValidatorPubKey {
    TendermintValidatorPubKey::Ed25519([n; 32])
}

fn validator_address(n: u8) -> TendermintValidatorAddress {
    TendermintValidatorAddress::from_pubkey(&pubkey(n))
}

fn coin(value: u64) -> Coin {
    Coin::new(value).unwrap()
}

fn attributes() -> StakedStateOpAttributes {
    StakedStateOpAttributes::new(0xab)
}

fn node_info(name: &str) -> NodeCommonInfo {
    NodeCommonInfo {
        name: String::from(name),
        security_contact: Some(String::from("security@example.com")),
        confidential_init: ConfidentialInit { keypackage: vec![1u8, 2, 3] },
    }
}

fn council_node(key: u8) -> CouncilNodeMeta {
    CouncilNodeMeta { node_info: node_info("node"), consensus_pubkey: pubkey(key) }
}

fn join_tx(nonce: u64, who: u8, key: u8) -> NodeJoinRequestTx {
    NodeJoinRequestTx::new(
        nonce,
        account(who),
        attributes(),
        NodeMetadata::CouncilNode(council_node(key)),
    )
}

fn record(store: &MemoryStore, who: u8) -> StakedState {
    store.get(&account(who)).unwrap()
}

fn validator(store: &MemoryStore, who: u8) -> Validator {
    match record(store, who).node_meta {
        Some(NodeState::CouncilNode(validator)) => validator,
        _ => panic!("not a validator"),
    }
}

fn change_validator(
    table: &StakingTable,
    store: &mut MemoryStore,
    who: u8,
    change: fn(&mut Validator),
) {
    let mut staking = record(store, who);
    match &mut staking.node_meta {
        Some(NodeState::CouncilNode(validator)) => change(validator),
        _ => panic!("not a validator"),
    }
    set_staking(store, staking, table.minimal_required_staking());
}

fn leave_active_set(validator: &mut Validator) {
    validator.inactivate(5, 1);
}

fn jail_until_fifty(validator: &mut Validator) {
    validator.jail(50);
}

fn join(
    table: &mut StakingTable,
    store: &mut MemoryStore,
    block_time: Timespec,
    tx: &NodeJoinRequestTx,
) -> Result<u16, PublicTxError> {
    assert!(table.is_fit_to_join(store, block_time, EVIDENCE_AGE, tx));
    table.node_join(store, &mock_verify, block_time, EVIDENCE_AGE, 0, tx)
}

fn joined(bonded: u64, minimum: u64) -> (StakingTable, MemoryStore) {
    let mut table = StakingTable::new(coin(minimum));
    let mut store = MemoryStore::new();
    table.deposit(&mut store, &account(1), coin(bonded)).unwrap();
    join(&mut table, &mut store, 10, &join_tx(0, 1, 1)).unwrap();
    (table, store)
}

#[test]
fn deposit_bonds_on_a_fresh_account() {
    let mut table = StakingTable::new(coin(100));
    let mut store = MemoryStore::new();
    assert_eq!(store.get(&account(1)), None);
    assert_eq!(table.deposit(&mut store, &account(1), coin(100)), Ok(()));
    let staking = record(&store, 1);
    assert_eq!(staking.bonded, coin(100));
    assert_eq!(staking.unbonded, coin(0));
    assert_eq!(staking.nonce, 0);
    assert_eq!(staking.unbonded_from, 0);
    assert_eq!(staking.address, account(1));
    assert_eq!(staking.node_meta, None);
    assert!(table.check_invariants(&store));
}

#[test]
fn join_after_deposit_makes_an_active_council_node() {
    let mut table = StakingTable::new(coin(100));
    let mut store = MemoryStore::new();
    table.deposit(&mut store, &account(1), coin(100)).unwrap();
    assert_eq!(table.validator_address_count(), 0);
    let version = join(&mut table, &mut store, 10, &join_tx(0, 1, 1));
    assert_eq!(version, Ok(0));
    let staking = record(&store, 1);
    assert_eq!(staking.nonce, 1);
    assert_eq!(staking.bonded, coin(100));
    let validator = validator(&store, 1);
    assert!(validator.is_active());
    assert!(!validator.is_jailed());
    assert_eq!(validator.council_node, council_node(1));
    assert_eq!(validator.validator_address(), validator_address(1));
    assert!(validator.used_validator_addresses.is_empty());
    assert_eq!(table.validator_address_count(), 1);
    assert_eq!(table.lookup_address(&validator_address(1)), Some(account(1)));
    assert!(table.check_invariants(&store));
}

#[test]
fn join_reports_the_later_enclave_version() {
    let mut table = StakingTable::new(coin(100));
    let mut store = MemoryStore::new();
    table.deposit(&mut store, &account(1), coin(100)).unwrap();
    table.deposit(&mut store, &account(2), coin(100)).unwrap();
    let attested = Ok(AttestationInfo { isv_svn: 7 });
    let version =
        table.node_join_attested(&mut store, 10, EVIDENCE_AGE, 3, &join_tx(0, 1, 1), attested);
    assert_eq!(version, Ok(7));
    let version =
        table.node_join_attested(&mut store, 10, EVIDENCE_AGE, 9, &join_tx(0, 2, 2), attested);
    assert_eq!(version, Ok(9));
    let version = table.node_join(&mut store, &mock_verify, 10, EVIDENCE_AGE, 4, &join_tx(0, 3, 3));
    assert_eq!(version, Err(PublicTxError::NodeJoin(NodeJoinError::BondedNotEnough)));
    assert!(table.check_invariants(&store));
}

#[test]
fn mock_verifier_passes_every_package_with_version_zero() {
    assert_eq!(mock_verify(&[], 0), Ok(AttestationInfo { isv_svn: 0 }));
    assert_eq!(mock_verify(&[1u8, 2, 3], 99), Ok(AttestationInfo { isv_svn: 0 }));
}

#[test]
fn join_payload_is_the_keypackage_of_either_role() {
    let tx = join_tx(0, 1, 1);
    assert_eq!(tx.get_keypackage_payload(), &[1u8, 2, 3][..]);
    let mut info = node_info("community");
    info.confidential_init.keypackage = vec![9u8, 8];
    let tx = NodeJoinRequestTx::new(4, account(2), attributes(), NodeMetadata::CommunityNode(info));
    assert_eq!(tx.get_keypackage_payload(), &[9u8, 8][..]);
    assert_eq!(tx.nonce, 4);
    assert_eq!(tx.address, account(2));
    assert_eq!(tx.attributes, attributes());
}

#[test]
fn join_checks_the_nonce_first() {
    let mut table = StakingTable::new(coin(100));
    let mut store = MemoryStore::new();
    // Nothing is bonded, and the nonce is wrong: the nonce is what is reported.
    let r = join(&mut table, &mut store, 10, &join_tx(1, 1, 1));
    assert_eq!(r, Err(PublicTxError::IncorrectNonce));
    assert_eq!(store.get(&account(1)), None);
    assert_eq!(table.validator_address_count(), 0);
}

#[test]
fn join_needs_the_minimum_bonded() {
    let mut table = StakingTable::new(coin(100));
    let mut store = MemoryStore::new();
    table.deposit(&mut store, &account(1), coin(99)).unwrap();
    let r = join(&mut table, &mut store, 10, &join_tx(0, 1, 1));
    assert_eq!(r, Err(PublicTxError::NodeJoin(NodeJoinError::BondedNotEnough)));
    assert_eq!(record(&store, 1).nonce, 0);
    assert_eq!(record(&store, 1).node_meta, None);
    assert_eq!(table.validator_address_count(), 0);
    table.deposit(&mut store, &account(1), coin(1)).unwrap();
    assert_eq!(join(&mut table, &mut store, 10, &join_tx(0, 1, 1)), Ok(0));
}

#[test]
fn join_passes_on_the_verdict_on_the_package() {
    let mut table = StakingTable::new(coin(100));
    let mut store = MemoryStore::new();
    table.deposit(&mut store, &account(1), coin(100)).unwrap();
    let tx = join_tx(0, 1, 1);
    let r = table.node_join_attested(&mut store, 10, EVIDENCE_AGE, 0, &tx, Err(VerifyError::Decode));
    assert_eq!(r, Err(PublicTxError::NodeJoin(NodeJoinError::KeyPackageDecodeError)));
    let r = table.node_join_attested(&mut store, 10, EVIDENCE_AGE, 0, &tx, Err(VerifyError::Verify));
    assert_eq!(r, Err(PublicTxError::NodeJoin(NodeJoinError::KeyPackageVerifyError)));
    assert_eq!(record(&store, 1).nonce, 0);
    assert_eq!(record(&store, 1).node_meta, None);
    assert_eq!(table.validator_address_count(), 0);
}

#[test]
fn join_accepts_council_nodes_only() {
    let mut table = StakingTable::new(coin(100));
    let mut store = MemoryStore::new();
    table.deposit(&mut store, &account(1), coin(100)).unwrap();
    let tx = NodeJoinRequestTx::new(
        0,
        account(1),
        attributes(),
        NodeMetadata::CommunityNode(node_info("community")),
    );
    let r = join(&mut table, &mut store, 10, &tx);
    assert_eq!(r, Err(PublicTxError::NodeJoin(NodeJoinError::WIPNotValidator)));
    // A package that fails is reported before the role is looked at.
    let r = table.node_join_attested(&mut store, 10, EVIDENCE_AGE, 0, &tx, Err(VerifyError::Verify));
    assert_eq!(r, Err(PublicTxError::NodeJoin(NodeJoinError::KeyPackageVerifyError)));
    assert_eq!(record(&store, 1).nonce, 0);
}

#[test]
fn join_twice_is_rejected_as_already_joined() {
    let (mut table, mut store) = joined(100, 100);
    let r = join(&mut table, &mut store, 11, &join_tx(1, 1, 1));
    assert_eq!(r, Err(PublicTxError::NodeJoin(NodeJoinError::AlreadyJoined)));
    let r = join(&mut table, &mut store, 11, &join_tx(1, 1, 2));
    assert_eq!(r, Err(PublicTxError::NodeJoin(NodeJoinError::AlreadyJoined)));
    assert_eq!(record(&store, 1).nonce, 1);
    assert_eq!(table.validator_address_count(), 1);
    assert!(table.check_invariants(&store));
}

#[test]
fn join_of_a_jailed_validator_is_rejected() {
    let (mut table, mut store) = joined(100, 100);
    change_validator(&table, &mut store, 1, jail_until_fifty);
    change_validator(&table, &mut store, 1, leave_active_set);
    let r = join(&mut table, &mut store, 60, &join_tx(1, 1, 1));
    assert_eq!(r, Err(PublicTxError::NodeJoin(NodeJoinError::IsJailed)));
    assert_eq!(record(&store, 1).nonce, 1);
}

#[test]
fn second_account_cannot_take_a_consensus_address_in_use() {
    let (mut table, mut store) = joined(100, 100);
    table.deposit(&mut store, &account(2), coin(100)).unwrap();
    let r = join(&mut table, &mut store, 11, &join_tx(0, 2, 1));
    assert_eq!(r, Err(PublicTxError::NodeJoin(NodeJoinError::DuplicateValidatorAddress)));
    assert_eq!(record(&store, 2).nonce, 0);
    assert_eq!(record(&store, 2).node_meta, None);
    assert_eq!(table.lookup_address(&validator_address(1)), Some(account(1)));
    assert_eq!(table.validator_address_count(), 1);
    assert!(table.check_invariants(&store));
    // With a key of its own the second account joins.
    assert_eq!(join(&mut table, &mut store, 11, &join_tx(0, 2, 2)), Ok(0));
    assert_eq!(table.lookup_address(&validator_address(2)), Some(account(2)));
    assert_eq!(table.validator_address_count(), 2);
    assert!(table.check_invariants(&store));
}

#[test]
fn rejoin_with_the_same_key_keeps_the_index() {
    let (mut table, mut store) = joined(100, 100);
    change_validator(&table, &mut store, 1, leave_active_set);
    assert!(!validator(&store, 1).is_active());
    assert_eq!(validator(&store, 1).inactive_block, Some(1));
    let mut tx = join_tx(1, 1, 1);
    if let NodeMetadata::CouncilNode(meta) = &mut tx.node_meta {
        meta.node_info.name = String::from("renamed");
    }
    assert_eq!(join(&mut table, &mut store, 20, &tx), Ok(0));
    let validator = validator(&store, 1);
    assert!(validator.is_active());
    assert_eq!(validator.inactive_time, None);
    assert_eq!(validator.inactive_block, None);
    assert_eq!(validator.council_node.node_info.name, "renamed");
    assert!(validator.used_validator_addresses.is_empty());
    assert_eq!(record(&store, 1).nonce, 2);
    assert_eq!(table.validator_address_count(), 1);
    assert!(table.check_invariants(&store));
}

#[test]
fn rejoin_with_another_key_keeps_the_old_address_for_evidence() {
    let (mut table, mut store) = joined(100, 100);
    change_validator(&table, &mut store, 1, leave_active_set);
    assert_eq!(join(&mut table, &mut store, 20, &join_tx(1, 1, 2)), Ok(0));
    let validator = validator(&store, 1);
    assert!(validator.is_active());
    assert_eq!(validator.validator_address(), validator_address(2));
    assert_eq!(validator.used_validator_addresses, vec![(validator_address(1), 20)]);
    assert_eq!(table.lookup_address(&validator_address(1)), Some(account(1)));
    assert_eq!(table.lookup_address(&validator_address(2)), Some(account(1)));
    assert_eq!(table.validator_address_count(), 2);
    assert!(table.check_invariants(&store));
    // The address given up is not free for another account.
    table.deposit(&mut store, &account(2), coin(100)).unwrap();
    let r = join(&mut table, &mut store, 21, &join_tx(0, 2, 1));
    assert_eq!(r, Err(PublicTxError::NodeJoin(NodeJoinError::DuplicateValidatorAddress)));
    assert_eq!(record(&store, 2).nonce, 0);
    assert!(table.check_invariants(&store));
}

#[test]
fn rejoin_may_take_back_an_address_of_the_account() {
    let (mut table, mut store) = joined(100, 100);
    change_validator(&table, &mut store, 1, leave_active_set);
    assert_eq!(join(&mut table, &mut store, 20, &join_tx(1, 1, 2)), Ok(0));
    change_validator(&table, &mut store, 1, leave_active_set);
    // The first address is in the index under the account itself: no duplicate.
    assert_eq!(join(&mut table, &mut store, 21, &join_tx(2, 1, 1)), Ok(0));
    let validator = validator(&store, 1);
    assert!(validator.is_active());
    assert_eq!(validator.validator_address(), validator_address(1));
    assert_eq!(
        validator.used_validator_addresses,
        vec![(validator_address(1), 20), (validator_address(2), 21)]
    );
    assert_eq!(record(&store, 1).nonce, 3);
    assert_eq!(table.lookup_address(&validator_address(1)), Some(account(1)));
    assert_eq!(table.lookup_address(&validator_address(2)), Some(account(1)));
    assert_eq!(table.validator_address_count(), 2);
    assert!(table.check_wf());
    assert!(table.check_invariants(&store));
}

#[test]
fn rejoin_may_take_back_an_expired_address_of_the_account() {
    let (mut table, mut store) = joined(100, 100);
    change_validator(&table, &mut store, 1, leave_active_set);
    assert_eq!(join(&mut table, &mut store, 20, &join_tx(1, 1, 2)), Ok(0));
    change_validator(&table, &mut store, 1, leave_active_set);
    // The first address has left the window at 20 + 1000: it leaves the index
    // and enters it again as the address in use.
    assert_eq!(join(&mut table, &mut store, 1_020, &join_tx(2, 1, 1)), Ok(0));
    let validator = validator(&store, 1);
    assert_eq!(validator.validator_address(), validator_address(1));
    assert_eq!(validator.used_validator_addresses, vec![(validator_address(2), 1_020)]);
    assert_eq!(table.lookup_address(&validator_address(1)), Some(account(1)));
    assert_eq!(table.lookup_address(&validator_address(2)), Some(account(1)));
    assert_eq!(table.validator_address_count(), 2);
    assert!(table.check_invariants(&store));
}

#[test]
fn table_is_unfit_once_the_index_has_lost_an_address_of_the_window() {
    let (mut table, mut store) = joined(100, 100);
    change_validator(&table, &mut store, 1, leave_active_set);
    assert_eq!(join(&mut table, &mut store, 20, &join_tx(1, 1, 2)), Ok(0));
    change_validator(&table, &mut store, 1, leave_active_set);
    // The first address is taken back while it is still in the window.
    assert_eq!(join(&mut table, &mut store, 21, &join_tx(2, 1, 1)), Ok(0));
    change_validator(&table, &mut store, 1, leave_active_set);
    // Its entry of time 20 expires at 1020: the address leaves the index, and
    // enters the window again as the address given up now.
    assert_eq!(join(&mut table, &mut store, 1_020, &join_tx(3, 1, 3)), Ok(0));
    let validator = validator(&store, 1);
    assert_eq!(
        validator.used_validator_addresses,
        vec![(validator_address(2), 21), (validator_address(1), 1_020)]
    );
    assert_eq!(table.lookup_address(&validator_address(1)), None);
    assert!(table.check_invariants(&store));
    // While the index holds what is to be taken out, requests go on.
    change_validator(&table, &mut store, 1, leave_active_set);
    assert!(table.is_fit_to_join(&store, 1_500, EVIDENCE_AGE, &join_tx(4, 1, 4)));
    // Once the entry of time 1020 has expired, the index would have to hold its
    // address: a request that gets as far as that finds the table unfit.
    assert!(!table.is_fit_to_join(&store, 2_020, EVIDENCE_AGE, &join_tx(4, 1, 4)));
    assert!(!table.can_evict(&store, &account(1), 2_020, EVIDENCE_AGE));
    // Requests that are answered before are not held up.
    assert!(table.is_fit_to_join(&store, 2_020, EVIDENCE_AGE, &join_tx(9, 1, 4)));
    assert!(table.is_fit_to_join(&store, 2_020, EVIDENCE_AGE, &join_tx(4, 1, 3)));
    let r = table.node_join(&mut store, &mock_verify, 2_020, EVIDENCE_AGE, 0, &join_tx(9, 1, 4));
    assert_eq!(r, Err(PublicTxError::IncorrectNonce));
    let r = table.node_join(&mut store, &mock_verify, 2_020, EVIDENCE_AGE, 0, &join_tx(4, 1, 3));
    assert_eq!(r, Ok(0));
    assert_eq!(record(&store, 1).nonce, 5);
}

#[test]
fn expired_addresses_leave_window_and_index() {
    let (mut table, mut store) = joined(100, 100);
    change_validator(&table, &mut store, 1, leave_active_set);
    assert_eq!(join(&mut table, &mut store, 20, &join_tx(1, 1, 2)), Ok(0));
    change_validator(&table, &mut store, 1, leave_active_set);
    // The address given up at 20 expires at 20 + 1000.
    assert_eq!(join(&mut table, &mut store, 1_020, &join_tx(2, 1, 3)), Ok(0));
    let validator = validator(&store, 1);
    assert_eq!(validator.used_validator_addresses, vec![(validator_address(2), 1_020)]);
    assert_eq!(table.lookup_address(&validator_address(1)), None);
    assert_eq!(table.lookup_address(&validator_address(2)), Some(account(1)));
    assert_eq!(table.lookup_address(&validator_address(3)), Some(account(1)));
    assert_eq!(table.validator_address_count(), 2);
    assert!(table.check_invariants(&store));
    // The expired address is free again.
    table.deposit(&mut store, &account(2), coin(100)).unwrap();
    assert_eq!(join(&mut table, &mut store, 1_021, &join_tx(0, 2, 1)), Ok(0));
    assert_eq!(table.lookup_address(&validator_address(1)), Some(account(2)));
    assert!(table.check_invariants(&store));
}

#[test]
fn eleventh_rotation_within_the_evidence_window_is_rejected() {
    let (mut table, mut store) = joined(100, 100);
    for k in 1..=10u8 {
        change_validator(&table, &mut store, 1, leave_active_set);
        let r = join(&mut table, &mut store, 20 + k as u64, &join_tx(k as u64, 1, 1 + k));
        assert_eq!(r, Ok(0));
        assert_eq!(validator(&store, 1).used_validator_addresses.len(), k as usize);
        assert!(table.check_invariants(&store));
    }
    assert_eq!(table.validator_address_count(), 11);
    change_validator(&table, &mut store, 1, leave_active_set);
    let before = record(&store, 1);
    let r = join(&mut table, &mut store, 40, &join_tx(11, 1, 12));
    assert_eq!(r, Err(PublicTxError::NodeJoin(NodeJoinError::UsedValidatorAddrFull)));
    assert_eq!(record(&store, 1), before);
    let validator = validator(&store, 1);
    assert!(!validator.is_active());
    assert_eq!(validator.validator_address(), validator_address(11));
    assert_eq!(validator.used_validator_addresses.len(), 10);
    assert_eq!(validator.used_validator_addresses[0], (validator_address(1), 21));
    assert_eq!(validator.used_validator_addresses[9], (validator_address(10), 30));
    assert_eq!(record(&store, 1).nonce, 11);
    assert_eq!(table.lookup_address(&validator_address(12)), None);
    assert_eq!(table.validator_address_count(), 11);
    assert!(table.check_invariants(&store));
}

#[test]
fn unbond_moves_value_and_burns_the_fee() {
    let mut table = StakingTable::new(coin(100));
    let mut store = MemoryStore::new();
    table.deposit(&mut store, &account(1), coin(100)).unwrap();
    let tx = UnbondTx::new(account(1), 0, coin(40), attributes());
    let r = table.unbond(&mut store, 500, 1_000, 7, &tx, Fee::new(coin(5)));
    assert_eq!(r, Ok(1_500));
    let staking = record(&store, 1);
    assert_eq!(staking.bonded, coin(55));
    assert_eq!(staking.unbonded, coin(40));
    assert_eq!(staking.unbonded_from, 1_500);
    assert_eq!(staking.nonce, 1);
    assert!(table.check_invariants(&store));
}

#[test]
fn unbond_clamps_the_unlock_time() {
    let mut table = StakingTable::new(coin(100));
    let mut store = MemoryStore::new();
    table.deposit(&mut store, &account(1), coin(100)).unwrap();
    let tx = UnbondTx::new(account(1), 0, coin(1), attributes());
    let r = table.unbond(&mut store, 10, u64::MAX - 3, 7, &tx, Fee::new(coin(0)));
    assert_eq!(r, Ok(u64::MAX));
    assert_eq!(record(&store, 1).unbonded_from, u64::MAX);
}

#[test]
fn unbond_rejections() {
    let mut table = StakingTable::new(coin(100));
    let mut store = MemoryStore::new();
    table.deposit(&mut store, &account(1), coin(100)).unwrap();
    let before = record(&store, 1);
    let fee = Fee::new(coin(5));

    let tx = UnbondTx::new(account(1), 1, coin(40), attributes());
    let r = table.unbond(&mut store, 500, 1_000, 7, &tx, fee);
    assert_eq!(r, Err(PublicTxError::IncorrectNonce));

    let tx = UnbondTx::new(account(1), 0, coin(0), attributes());
    let r = table.unbond(&mut store, 500, 1_000, 7, &tx, fee);
    assert_eq!(r, Err(PublicTxError::Unbond(UnbondError::ZeroValue)));

    let tx = UnbondTx::new(account(1), 0, coin(96), attributes());
    let r = table.unbond(&mut store, 500, 1_000, 7, &tx, fee);
    assert_eq!(r, Err(PublicTxError::Unbond(UnbondError::CoinError(CoinError::Negative))));

    let tx = UnbondTx::new(account(1), 0, coin(MAX_COIN), attributes());
    let r = table.unbond(&mut store, 500, 1_000, 7, &tx, fee);
    assert_eq!(r, Err(PublicTxError::Unbond(UnbondError::CoinError(CoinError::OutOfBound))));

    assert_eq!(record(&store, 1), before);

    // Value and fee may take all that is bonded.
    let tx = UnbondTx::new(account(1), 0, coin(95), attributes());
    assert_eq!(table.unbond(&mut store, 500, 1_000, 7, &tx, fee), Ok(1_500));
    assert_eq!(record(&store, 1).bonded, coin(0));
    assert_eq!(record(&store, 1).unbonded, coin(95));
}

#[test]
fn unbond_cannot_push_the_unbonded_amount_past_the_supply() {
    let mut table = StakingTable::new(coin(100));
    let mut store = MemoryStore::new();
    let mut staking = StakedState::default(account(1));
    staking.bonded = coin(10);
    staking.unbonded = coin(MAX_COIN - 5);
    set_staking(&mut store, staking, coin(100));
    let tx = UnbondTx::new(account(1), 0, coin(6), attributes());
    let r = table.unbond(&mut store, 500, 1_000, 7, &tx, Fee::new(coin(0)));
    assert_eq!(r, Err(PublicTxError::Unbond(UnbondError::CoinError(CoinError::OutOfBound))));
    let tx = UnbondTx::new(account(1), 0, coin(5), attributes());
    let r = table.unbond(&mut store, 500, 1_000, 7, &tx, Fee::new(coin(0)));
    assert_eq!(r, Ok(1_500));
    assert_eq!(record(&store, 1).unbonded, coin(MAX_COIN));
}

#[test]
fn withdraw_waits_for_the_unbonding_period() {
    let mut table = StakingTable::new(coin(100));
    let mut store = MemoryStore::new();
    table.deposit(&mut store, &account(1), coin(100)).unwrap();
    let tx = UnbondTx::new(account(1), 0, coin(40), attributes());
    table.unbond(&mut store, 500, 1_000, 7, &tx, Fee::new(coin(5))).unwrap();
    let before = record(&store, 1);
    let r = table.withdraw(&mut store, 1_499, &account(1), coin(40));
    assert_eq!(r, Err(WithdrawError::InUnbondingPeriod));
    assert_eq!(record(&store, 1), before);
    let r = table.withdraw(&mut store, 1_500, &account(1), coin(40));
    assert_eq!(r, Ok(()));
    let staking = record(&store, 1);
    assert_eq!(staking.unbonded, coin(0));
    assert_eq!(staking.bonded, coin(55));
    assert_eq!(staking.nonce, 2);
    assert!(table.check_invariants(&store));
}

#[test]
fn withdraw_takes_the_whole_unbonded_amount_or_nothing() {
    let mut table = StakingTable::new(coin(100));
    let mut store = MemoryStore::new();
    table.deposit(&mut store, &account(1), coin(100)).unwrap();
    let tx = UnbondTx::new(account(1), 0, coin(40), attributes());
    table.unbond(&mut store, 500, 1_000, 7, &tx, Fee::new(coin(5))).unwrap();
    let r = table.withdraw(&mut store, 2_000, &account(1), coin(39));
    assert_eq!(r, Err(WithdrawError::UnbondedSanityCheck(coin(40), coin(39))));
    let r = table.withdraw(&mut store, 2_000, &account(1), coin(41));
    assert_eq!(r, Err(WithdrawError::UnbondedSanityCheck(coin(40), coin(41))));
    assert_eq!(record(&store, 1).unbonded, coin(40));
    assert_eq!(record(&store, 1).nonce, 1);
}

#[test]
fn second_withdrawal_of_the_same_amount_is_a_mismatch() {
    let mut table = StakingTable::new(coin(100));
    let mut store = MemoryStore::new();
    table.deposit(&mut store, &account(1), coin(100)).unwrap();
    let tx = UnbondTx::new(account(1), 0, coin(40), attributes());
    table.unbond(&mut store, 500, 1_000, 7, &tx, Fee::new(coin(5))).unwrap();
    assert_eq!(table.withdraw(&mut store, 2_000, &account(1), coin(40)), Ok(()));
    let r = table.withdraw(&mut store, 2_000, &account(1), coin(40));
    assert_eq!(r, Err(WithdrawError::UnbondedSanityCheck(coin(0), coin(40))));
    assert_eq!(record(&store, 1).nonce, 2);
}

#[test]
fn withdrawal_of_nothing_from_nothing_counts() {
    let mut table = StakingTable::new(coin(100));
    let mut store = MemoryStore::new();
    assert_eq!(table.withdraw(&mut store, 0, &account(1), coin(0)), Ok(()));
    assert_eq!(record(&store, 1).nonce, 1);
    assert_eq!(table.withdraw(&mut store, 0, &account(1), coin(0)), Ok(()));
    assert_eq!(record(&store, 1).nonce, 2);
}

#[test]
fn balances_are_conserved() {
    let mut table = StakingTable::new(coin(100));
    let mut store = MemoryStore::new();
    let who = account(1);
    let mut deposited: u64 = 0;
    let mut fees: u64 = 0;
    let mut withdrawn: u64 = 0;

    table.deposit(&mut store, &who, coin(100)).unwrap();
    deposited += 100;
    let tx = UnbondTx::new(who, 0, coin(40), attributes());
    table.unbond(&mut store, 500, 1_000, 7, &tx, Fee::new(coin(5))).unwrap();
    fees += 5;
    // Rejected: counts for nothing.
    let tx = UnbondTx::new(who, 1, coin(60), attributes());
    assert!(table.unbond(&mut store, 500, 1_000, 7, &tx, Fee::new(coin(5))).is_err());
    assert!(table.withdraw(&mut store, 1_000, &who, coin(40)).is_err());
    table.deposit(&mut store, &who, coin(7)).unwrap();
    deposited += 7;
    table.withdraw(&mut store, 1_500, &who, coin(40)).unwrap();
    withdrawn += 40;
    let tx = UnbondTx::new(who, 2, coin(10), attributes());
    table.unbond(&mut store, 500, 2_000, 8, &tx, Fee::new(coin(2))).unwrap();
    fees += 2;

    let staking = record(&store, 1);
    assert_eq!(staking.bonded, coin(50));
    assert_eq!(staking.unbonded, coin(10));
    assert_eq!(staking.bonded.value() + staking.unbonded.value(), deposited - fees - withdrawn);
}

#[test]
fn deposit_rejections() {
    let (mut table, mut store) = joined(100, 100);
    assert_eq!(
        table.deposit(&mut store, &account(1), coin(MAX_COIN - 99)),
        Err(DepositError::CoinError(CoinError::OutOfBound))
    );
    assert_eq!(table.deposit(&mut store, &account(1), coin(MAX_COIN - 100)), Ok(()));
    assert_eq!(record(&store, 1).bonded, coin(MAX_COIN));
    assert_eq!(record(&store, 1).nonce, 1);
    change_validator(&table, &mut store, 1, jail_until_fifty);
    let before = record(&store, 1);
    assert_eq!(table.deposit(&mut store, &account(1), coin(0)), Err(DepositError::IsJailed));
    assert_eq!(record(&store, 1), before);
}

#[test]
fn jailed_accounts_cannot_unbond_or_withdraw() {
    let (mut table, mut store) = joined(100, 100);
    change_validator(&table, &mut store, 1, jail_until_fifty);
    let tx = UnbondTx::new(account(1), 1, coin(40), attributes());
    // Jail holds whether or not its time has passed.
    let r = table.unbond(&mut store, 500, 1_000, 7, &tx, Fee::new(coin(5)));
    assert_eq!(r, Err(PublicTxError::Unbond(UnbondError::IsJailed)));
    let r = table.withdraw(&mut store, 1_000, &account(1), coin(0));
    assert_eq!(r, Err(WithdrawError::IsJailed));
    let tx = UnbondTx::new(account(1), 0, coin(40), attributes());
    let r = table.unbond(&mut store, 500, 1_000, 7, &tx, Fee::new(coin(5)));
    assert_eq!(r, Err(PublicTxError::IncorrectNonce));
}

#[test]
fn unjail_waits_for_the_jail_time() {
    let (mut table, mut store) = joined(100, 100);
    change_validator(&table, &mut store, 1, jail_until_fifty);
    assert!(validator(&store, 1).is_jailed());
    let tx = UnjailTx::new(1, account(1), attributes());
    let before = record(&store, 1);
    assert_eq!(
        table.unjail(&mut store, 49, &tx),
        Err(PublicTxError::Unjail(UnjailError::JailTimeNotExpired))
    );
    assert_eq!(record(&store, 1), before);
    assert_eq!(table.unjail(&mut store, 50, &tx), Ok(()));
    let validator = validator(&store, 1);
    assert_eq!(validator.jailed_until, None);
    assert!(!validator.is_jailed());
    assert_eq!(record(&store, 1).nonce, 2);
    assert_eq!(table.lookup_address(&validator_address(1)), Some(account(1)));
    assert!(table.check_invariants(&store));
}

#[test]
fn unjail_rejections() {
    let (mut table, mut store) = joined(100, 100);
    let tx = UnjailTx::new(1, account(1), attributes());
    assert_eq!(
        table.unjail(&mut store, 60, &tx),
        Err(PublicTxError::Unjail(UnjailError::NotJailed))
    );
    let tx = UnjailTx::new(0, account(2), attributes());
    assert_eq!(
        table.unjail(&mut store, 60, &tx),
        Err(PublicTxError::Unjail(UnjailError::NotJailed))
    );
    assert_eq!(store.get(&account(2)), None);
    change_validator(&table, &mut store, 1, jail_until_fifty);
    let tx = UnjailTx::new(0, account(1), attributes());
    assert_eq!(table.unjail(&mut store, 60, &tx), Err(PublicTxError::IncorrectNonce));
    assert_eq!(record(&store, 1).nonce, 1);
}

#[test]
fn nonce_wraps_at_the_end_of_its_range() {
    let mut table = StakingTable::new(coin(100));
    let mut store = MemoryStore::new();
    let mut staking = StakedState::default(account(1));
    staking.nonce = u64::MAX;
    set_staking(&mut store, staking, coin(100));
    assert_eq!(table.withdraw(&mut store, 0, &account(1), coin(0)), Ok(()));
    assert_eq!(record(&store, 1).nonce, 0);
    let mut staking = StakedState::default(account(2));
    staking.inc_nonce();
    assert_eq!(staking.nonce, 1);
}

#[test]
fn store_keeps_one_record_for_each_account() {
    let table = StakingTable::new(coin(100));
    let mut store = MemoryStore::new();
    assert_eq!(table.get_or_default(&store, &account(1)), StakedState::default(account(1)));
    let mut first = StakedState::default(account(1));
    first.bonded = coin(1);
    let mut second = StakedState::default(account(2));
    second.bonded = coin(2);
    store.set_staking(first.clone(), coin(100));
    store.set_staking(second.clone(), coin(100));
    assert_eq!(store.get(&account(1)), Some(first));
    assert_eq!(store.get(&account(2)), Some(second.clone()));
    let mut replaced = StakedState::default(account(1));
    replaced.bonded = coin(3);
    store.set_staking(replaced.clone(), coin(100));
    assert_eq!(store.get(&account(1)), Some(replaced.clone()));
    assert_eq!(store.get(&account(2)), Some(second));
    assert_eq!(store.get(&account(3)), None);
    assert_eq!(table.get_or_default(&store, &account(1)), replaced);
    assert_eq!(table.minimal_required_staking(), coin(100));
}

#[test]
fn check_invariants_finds_an_entry_without_a_validator() {
    let (table, mut store) = joined(100, 100);
    assert!(table.check_invariants(&store));
    // The record loses what the index says of it.
    let mut staking = record(&store, 1);
    staking.node_meta = None;
    set_staking(&mut store, staking, coin(100));
    assert!(!table.check_invariants(&store));
    assert!(table.check_wf());
    // Another key in the record: the index names an address the record does not.
    let mut staking = record(&store, 1);
    staking.node_meta = Some(NodeState::CouncilNode(Validator::new(council_node(9))));
    set_staking(&mut store, staking, coin(100));
    assert!(!table.check_invariants(&store));
}

#[test]
fn can_evict_finds_a_window_that_the_index_does_not_hold() {
    let (table, mut store) = joined(100, 100);
    let mut staking = record(&store, 1);
    if let Some(NodeState::CouncilNode(validator)) = &mut staking.node_meta {
        validator.used_validator_addresses.push((validator_address(5), 10));
    }
    set_staking(&mut store, staking, coin(100));
    // Within the evidence window nothing is to be taken out.
    assert!(table.can_evict(&store, &account(1), 1_009, EVIDENCE_AGE));
    // Once expired, the address would have to be in the index.
    assert!(!table.can_evict(&store, &account(1), 1_010, EVIDENCE_AGE));
    assert!(table.can_evict(&store, &account(2), 1_010, EVIDENCE_AGE));
}

fn verdict_by_size(keypackage: &[u8], time: Timespec) -> Result<AttestationInfo, VerifyError> {
    if keypackage.is_empty() {
        Err(VerifyError::Decode)
    } else if time < 100 {
        Err(VerifyError::Verify)
    } else {
        Ok(AttestationInfo { isv_svn: keypackage.len() as u16 })
    }
}

#[test]
fn join_puts_the_package_of_the_request_to_the_verifier() {
    let mut table = StakingTable::new(coin(100));
    let mut store = MemoryStore::new();
    table.deposit(&mut store, &account(1), coin(100)).unwrap();
    let tx = join_tx(0, 1, 1);
    let r = table.node_join(&mut store, &verdict_by_size, 99, EVIDENCE_AGE, 0, &tx);
    assert_eq!(r, Err(PublicTxError::NodeJoin(NodeJoinError::KeyPackageVerifyError)));
    let mut empty = join_tx(0, 1, 1);
    if let NodeMetadata::CouncilNode(meta) = &mut empty.node_meta {
        meta.node_info.confidential_init.keypackage = Vec::new();
    }
    let r = table.node_join(&mut store, &verdict_by_size, 100, EVIDENCE_AGE, 0, &empty);
    assert_eq!(r, Err(PublicTxError::NodeJoin(NodeJoinError::KeyPackageDecodeError)));
    // The package holds three bytes.
    let r = table.node_join(&mut store, &verdict_by_size, 100, EVIDENCE_AGE, 2, &tx);
    assert_eq!(r, Ok(3));
    assert_eq!(record(&store, 1).nonce, 1);
}

#[test]
fn join_does_not_ask_for_a_verdict_it_does_not_need() {
    let mut table = StakingTable::new(coin(100));
    let mut store = MemoryStore::new();
    let asked = std::cell::Cell::new(0u32);
    let counting = |_keypackage: &[u8], _time: Timespec| {
        asked.set(asked.get() + 1);
        Ok(AttestationInfo { isv_svn: 0 })
    };
    table.deposit(&mut store, &account(1), coin(99)).unwrap();
    let r = table.node_join(&mut store, &counting, 10, EVIDENCE_AGE, 0, &join_tx(1, 1, 1));
    assert_eq!(r, Err(PublicTxError::IncorrectNonce));
    let r = table.node_join(&mut store, &counting, 10, EVIDENCE_AGE, 0, &join_tx(0, 1, 1));
    assert_eq!(r, Err(PublicTxError::NodeJoin(NodeJoinError::BondedNotEnough)));
    assert_eq!(asked.get(), 0);
    table.deposit(&mut store, &account(1), coin(1)).unwrap();
    let r = table.node_join(&mut store, &counting, 10, EVIDENCE_AGE, 0, &join_tx(0, 1, 1));
    assert_eq!(r, Ok(0));
    assert_eq!(asked.get(), 1);
}

#[test]
fn no_consensus_address_has_two_owners() {
    let mut table = StakingTable::new(coin(100));
    let mut store = MemoryStore::new();
    for who in 1..=5u8 {
        table.deposit(&mut store, &account(who), coin(100)).unwrap();
        // Every account asks for the keys of its neighbours too.
        for key in who..who + 3 {
            let nonce = record(&store, who).nonce;
            let r = join(&mut table, &mut store, 10, &join_tx(nonce, who, key));
            if r.is_ok() {
                change_validator(&table, &mut store, who, leave_active_set);
            }
        }
    }
    assert!(table.check_wf());
    assert!(table.check_invariants(&store));
    let index = table.validator_addresses();
    for i in 0..index.entry_count() {
        for j in 0..i {
            assert_ne!(index.entry_at(i).0, index.entry_at(j).0);
        }
        let entry = index.entry_at(i);
        assert_eq!(table.lookup_address(&entry.0), Some(entry.1));
    }
    assert_eq!(table.validator_address_count(), index.entry_count());
    // Account 1 took keys 1 to 3, so account 2 got key 4 only, and so on.
    assert_eq!(table.lookup_address(&validator_address(1)), Some(account(1)));
    assert_eq!(table.lookup_address(&validator_address(3)), Some(account(1)));
    assert_eq!(table.lookup_address(&validator_address(4)), Some(account(2)));
    assert_eq!(table.lookup_address(&validator_address(5)), Some(account(3)));
    assert_eq!(table.lookup_address(&validator_address(6)), Some(account(4)));
    assert_eq!(table.lookup_address(&validator_address(7)), Some(account(5)));
    assert_eq!(table.validator_address_count(), 7);
}
