//! The staking record of an account and the node metadata it may carry.

use crate::address::{BlockHeight, StakedStateAddress, TendermintValidatorAddress,
    TendermintValidatorPubKey, Timespec};
use crate::coin::Coin;
use vstd::prelude::*;

verus! {

/// The counter that orders the operations an account signs.
pub type Nonce = u64;

/// The network and the version of the application that an operation is meant
/// for.
#[derive(Debug, Clone, Copy, PartialEq, Eq, Structural)]
pub struct StakedStateOpAttributes {
    /// The identifier of the network.
    pub chain_hex_id: u8,
    /// The version of the application.
    pub app_version: u64,
}

impl StakedStateOpAttributes {
    /// The attributes for a network, at version 0.
    pub fn new(chain_hex_id: u8) -> (r: StakedStateOpAttributes)
        ensures
            r == (StakedStateOpAttributes { chain_hex_id, app_version: 0 }),
    {
        StakedStateOpAttributes { chain_hex_id, app_version: 0 }
    }
}

/// A request to release a jailed validator.
#[derive(Debug, Clone, Copy, PartialEq, Eq)]
pub struct UnjailTx {
    /// The nonce that the record is expected to have.
    pub nonce: Nonce,
    /// The account of the validator.
    pub address: StakedStateAddress,
    /// The network and version the request is meant for.
    pub attributes: StakedStateOpAttributes,
}

impl UnjailTx {
    /// The request made of its parts.
    pub fn new(nonce: Nonce, address: StakedStateAddress, attributes: StakedStateOpAttributes) -> (r:
        UnjailTx)
        ensures
            r == (UnjailTx { nonce, address, attributes }),
    {
        UnjailTx { nonce, address, attributes }
    }
}

/// A request to move value from the bonded to the unbonded amount.
#[derive(Debug, Clone, Copy, PartialEq, Eq)]
pub struct UnbondTx {
    /// The account to unbond from.
    pub from_staked_account: StakedStateAddress,
    /// The nonce that the record is expected to have.
    pub nonce: Nonce,
    /// The amount to unbond.
    pub value: Coin,
    /// The network and version the request is meant for.
    pub attributes: StakedStateOpAttributes,
}

impl UnbondTx {
    /// The request made of its parts.
    pub fn new(
        from_staked_account: StakedStateAddress,
        nonce: Nonce,
        value: Coin,
        attributes: StakedStateOpAttributes,
    ) -> (r: UnbondTx)
        ensures
            r == (UnbondTx { from_staked_account, nonce, value, attributes }),
    {
        UnbondTx { from_staked_account, nonce, value, attributes }
    }
}

/// What a node hands over to be admitted to the confidential computation.
#[derive(Debug, PartialEq, Eq)]
pub struct ConfidentialInit {
    /// The serialized membership package that carries the attestation.
    pub keypackage: Vec<u8>,
}

/// What every node declares of itself, whatever its role.
#[derive(Debug, PartialEq, Eq)]
pub struct NodeCommonInfo {
    /// The name the node goes by.
    pub name: String,
    /// Where to report security issues, if the operator says.
    pub security_contact: Option<String>,
    /// The membership package of the node.
    pub confidential_init: ConfidentialInit,
}

/// The mathematical content of a [`NodeCommonInfo`].
pub struct NodeCommonInfoView {
    pub name: Seq<char>,
    pub security_contact: Option<Seq<char>>,
    pub keypackage: Seq<u8>,
}

impl View for NodeCommonInfo {
    type V = NodeCommonInfoView;

    open spec fn view(&self) -> NodeCommonInfoView {
        NodeCommonInfoView {
            name: self.name@,
            security_contact: match self.security_contact {
                Some(contact) => Some(contact@),
                None => None,
            },
            keypackage: self.confidential_init.keypackage@,
        }
    }
}

impl Clone for NodeCommonInfo {
    fn clone(&self) -> (r: Self)
        ensures
            r@ == self@,
    {
        let keypackage = self.confidential_init.keypackage.clone();
        assert(keypackage@ =~= self.confidential_init.keypackage@);
        NodeCommonInfo {
            name: self.name.clone(),
            security_contact: match &self.security_contact {
                Some(contact) => Some(contact.clone()),
                None => None,
            },
            confidential_init: ConfidentialInit { keypackage },
        }
    }
}

/// What a council node, a validator, declares of itself.
#[derive(Debug, PartialEq, Eq)]
pub struct CouncilNodeMeta {
    /// What it has in common with other nodes.
    pub node_info: NodeCommonInfo,
    /// The key with which it signs in consensus.
    pub consensus_pubkey: TendermintValidatorPubKey,
}

/// The mathematical content of a [`CouncilNodeMeta`].
pub struct CouncilNodeMetaView {
    pub node_info: NodeCommonInfoView,
    pub consensus_pubkey: TendermintValidatorPubKey,
}

impl CouncilNodeMetaView {
    /// The consensus address that the declared key gives.
    pub open spec fn validator_address(self) -> TendermintValidatorAddress {
        TendermintValidatorAddress::of_pubkey(self.consensus_pubkey)
    }
}

impl View for CouncilNodeMeta {
    type V = CouncilNodeMetaView;

    open spec fn view(&self) -> CouncilNodeMetaView {
        CouncilNodeMetaView {
            node_info: self.node_info@,
            consensus_pubkey: self.consensus_pubkey,
        }
    }
}

impl Clone for CouncilNodeMeta {
    fn clone(&self) -> (r: Self)
        ensures
            r@ == self@,
    {
        CouncilNodeMeta {
            node_info: self.node_info.clone(),
            consensus_pubkey: self.consensus_pubkey,
        }
    }
}

/// The role a node asks for, with what it declares for that role.
#[derive(Debug, PartialEq, Eq)]
pub enum NodeMetadata {
    /// A validator that takes part in consensus.
    CouncilNode(CouncilNodeMeta),
    /// A node that does not take part in consensus.
    CommunityNode(NodeCommonInfo),
}

/// The mathematical content of a [`NodeMetadata`].
pub enum NodeMetadataView {
    CouncilNode(CouncilNodeMetaView),
    CommunityNode(NodeCommonInfoView),
}

impl NodeMetadataView {
    /// The membership package, which every role carries.
    pub open spec fn keypackage(self) -> Seq<u8> {
        match self {
            NodeMetadataView::CouncilNode(meta) => meta.node_info.keypackage,
            NodeMetadataView::CommunityNode(info) => info.keypackage,
        }
    }
}

impl View for NodeMetadata {
    type V = NodeMetadataView;

    open spec fn view(&self) -> NodeMetadataView {
        match self {
            NodeMetadata::CouncilNode(meta) => NodeMetadataView::CouncilNode(meta@),
            NodeMetadata::CommunityNode(info) => NodeMetadataView::CommunityNode(info@),
        }
    }
}

impl Clone for NodeMetadata {
    fn clone(&self) -> (r: Self)
        ensures
            r@ == self@,
    {
        match self {
            NodeMetadata::CouncilNode(meta) => NodeMetadata::CouncilNode(meta.clone()),
            NodeMetadata::CommunityNode(info) => NodeMetadata::CommunityNode(info.clone()),
        }
    }
}

/// The state of an account as a validator.
#[derive(Debug, PartialEq, Eq)]
pub struct Validator {
    /// What the validator last declared of itself.
    pub council_node: CouncilNodeMeta,
    /// Set while the validator is jailed: the time from which it may ask to
    /// be released.
    pub jailed_until: Option<Timespec>,
    /// Set while the validator is out of the active set: when it left.
    pub inactive_time: Option<Timespec>,
    /// Set while the validator is out of the active set: the block at which
    /// it left.
    pub inactive_block: Option<BlockHeight>,
    /// The consensus addresses it gave up, each with the time at which it did,
    /// oldest first. Evidence against them is still charged to this account.
    pub used_validator_addresses: Vec<(TendermintValidatorAddress, Timespec)>,
}

/// The mathematical content of a [`Validator`].
pub struct ValidatorView {
    pub council_node: CouncilNodeMetaView,
    pub jailed_until: Option<Timespec>,
    pub inactive_time: Option<Timespec>,
    pub inactive_block: Option<BlockHeight>,
    pub used_validator_addresses: Seq<(TendermintValidatorAddress, Timespec)>,
}

impl ValidatorView {
    /// A validator as it is on first joining.
    pub open spec fn fresh(council_node: CouncilNodeMetaView) -> ValidatorView {
        ValidatorView {
            council_node,
            jailed_until: None,
            inactive_time: None,
            inactive_block: None,
            used_validator_addresses: Seq::empty(),
        }
    }

    /// Jailed means that a release time is set, whether or not it has passed.
    pub open spec fn is_jailed(self) -> bool {
        self.jailed_until is Some
    }

    /// Active means that no time of leaving is recorded.
    pub open spec fn is_active(self) -> bool {
        self.inactive_time is None
    }

    /// The consensus address now in use.
    pub open spec fn validator_address(self) -> TendermintValidatorAddress {
        self.council_node.validator_address()
    }
}

impl View for Validator {
    type V = ValidatorView;

    open spec fn view(&self) -> ValidatorView {
        ValidatorView {
            council_node: self.council_node@,
            jailed_until: self.jailed_until,
            inactive_time: self.inactive_time,
            inactive_block: self.inactive_block,
            used_validator_addresses: self.used_validator_addresses@,
        }
    }
}

impl Clone for Validator {
    fn clone(&self) -> (r: Self)
        ensures
            r@ == self@,
    {
        let mut used: Vec<(TendermintValidatorAddress, Timespec)> = Vec::new();
        let mut i: usize = 0;
        while i < self.used_validator_addresses.len()
            invariant
                i <= self.used_validator_addresses.len(),
                used@ == self.used_validator_addresses@.take(i as int),
            decreases self.used_validator_addresses.len() - i,
        {
            used.push(self.used_validator_addresses[i]);
            assert(used@ =~= self.used_validator_addresses@.take(i + 1));
            i += 1;
        }
        assert(used@ =~= self.used_validator_addresses@);
        Validator {
            council_node: self.council_node.clone(),
            jailed_until: self.jailed_until,
            inactive_time: self.inactive_time,
            inactive_block: self.inactive_block,
            used_validator_addresses: used,
        }
    }
}

impl Validator {
    /// The state of a validator that joins for the first time.
    pub fn new(council_node: CouncilNodeMeta) -> (r: Validator)
        ensures
            r@ == ValidatorView::fresh(council_node@),
    {
        Validator {
            council_node,
            jailed_until: None,
            inactive_time: None,
            inactive_block: None,
            used_validator_addresses: Vec::new(),
        }
    }

    /// Whether the validator is jailed.
    pub fn is_jailed(&self) -> (r: bool)
        ensures
            r == self@.is_jailed(),
    {
        self.jailed_until.is_some()
    }

    /// Whether the validator is in the active set.
    pub fn is_active(&self) -> (r: bool)
        ensures
            r == self@.is_active(),
    {
        self.inactive_time.is_none()
    }

    /// The consensus address now in use.
    pub fn validator_address(&self) -> (r: TendermintValidatorAddress)
        ensures
            r == self@.validator_address(),
    {
        TendermintValidatorAddress::from_pubkey(&self.council_node.consensus_pubkey)
    }

    /// Releases the validator from jail.
    pub fn unjail(&mut self)
        ensures
            final(self)@ == (ValidatorView { jailed_until: None, ..old(self)@ }),
    {
        self.jailed_until = None;
    }

    /// Jails the validator until `until`.
    pub fn jail(&mut self, until: Timespec)
        ensures
            final(self)@ == (ValidatorView { jailed_until: Some(until), ..old(self)@ }),
    {
        self.jailed_until = Some(until);
    }

    /// Records that the validator left the active set at the given time and
    /// block.
    pub fn inactivate(&mut self, block_time: Timespec, block_height: BlockHeight)
        ensures
            final(self)@ == (ValidatorView {
                inactive_time: Some(block_time),
                inactive_block: Some(block_height),
                ..old(self)@
            }),
    {
        self.inactive_time = Some(block_time);
        self.inactive_block = Some(block_height);
    }
}

/// What an account is as a node, once it has asked to be one.
#[derive(Debug, PartialEq, Eq)]
pub enum NodeState {
    /// A validator.
    CouncilNode(Validator),
    /// A node outside consensus.
    CommunityNode(NodeCommonInfo),
}

/// The mathematical content of a [`NodeState`].
pub enum NodeStateView {
    CouncilNode(ValidatorView),
    CommunityNode(NodeCommonInfoView),
}

impl View for NodeState {
    type V = NodeStateView;

    open spec fn view(&self) -> NodeStateView {
        match self {
            NodeState::CouncilNode(validator) => NodeStateView::CouncilNode(validator@),
            NodeState::CommunityNode(info) => NodeStateView::CommunityNode(info@),
        }
    }
}

impl Clone for NodeState {
    fn clone(&self) -> (r: Self)
        ensures
            r@ == self@,
    {
        match self {
            NodeState::CouncilNode(validator) => NodeState::CouncilNode(validator.clone()),
            NodeState::CommunityNode(info) => NodeState::CommunityNode(info.clone()),
        }
    }
}

/// The staking record of one account.
#[derive(Debug, PartialEq, Eq)]
pub struct StakedState {
    /// How many operations have changed the record under the account's own
    /// authority.
    pub nonce: Nonce,
    /// The amount at stake.
    pub bonded: Coin,
    /// The amount released from stake, waiting to be withdrawn.
    pub unbonded: Coin,
    /// The time from which the unbonded amount may be withdrawn.
    pub unbonded_from: Timespec,
    /// The account that the record belongs to.
    pub address: StakedStateAddress,
    /// The account as a node, if it ever asked to be one.
    pub node_meta: Option<NodeState>,
}

/// The mathematical content of a [`StakedState`].
pub struct StakedStateView {
    pub nonce: Nonce,
    pub bonded: nat,
    pub unbonded: nat,
    pub unbonded_from: Timespec,
    pub address: StakedStateAddress,
    pub node_meta: Option<NodeStateView>,
}

impl StakedStateView {
    /// The record of an account that nothing has happened to.
    pub open spec fn fresh(address: StakedStateAddress) -> StakedStateView {
        StakedStateView {
            nonce: 0,
            bonded: 0,
            unbonded: 0,
            unbonded_from: 0,
            address,
            node_meta: None,
        }
    }

    /// The account as a validator, if it is one.
    pub open spec fn validator(self) -> Option<ValidatorView> {
        match self.node_meta {
            Some(NodeStateView::CouncilNode(validator)) => Some(validator),
            _ => None,
        }
    }

    /// An account is jailed when it is a jailed validator.
    pub open spec fn is_jailed(self) -> bool {
        match self.validator() {
            Some(validator) => validator.is_jailed(),
            None => false,
        }
    }

    /// The nonce after one more operation. The counter wraps at the end of its
    /// range.
    pub open spec fn next_nonce(self) -> Nonce {
        if self.nonce == u64::MAX {
            0
        } else {
            (self.nonce + 1) as u64
        }
    }
}

impl View for StakedState {
    type V = StakedStateView;

    open spec fn view(&self) -> StakedStateView {
        StakedStateView {
            nonce: self.nonce,
            bonded: self.bonded@,
            unbonded: self.unbonded@,
            unbonded_from: self.unbonded_from,
            address: self.address,
            node_meta: match self.node_meta {
                Some(node) => Some(node@),
                None => None,
            },
        }
    }
}

impl Clone for StakedState {
    fn clone(&self) -> (r: Self)
        ensures
            r@ == self@,
    {
        StakedState {
            nonce: self.nonce,
            bonded: self.bonded,
            unbonded: self.unbonded,
            unbonded_from: self.unbonded_from,
            address: self.address,
            node_meta: match &self.node_meta {
                Some(node) => Some(node.clone()),
                None => None,
            },
        }
    }
}

impl StakedState {
    /// The record of an account that nothing has happened to.
    pub fn default(address: StakedStateAddress) -> (r: StakedState)
        ensures
            r@ == StakedStateView::fresh(address),
    {
        StakedState {
            nonce: 0,
            bonded: Coin::zero(),
            unbonded: Coin::zero(),
            unbonded_from: 0,
            address,
            node_meta: None,
        }
    }

    /// Whether the account is a jailed validator.
    pub fn is_jailed(&self) -> (r: bool)
        ensures
            r == self@.is_jailed(),
    {
        match &self.node_meta {
            Some(NodeState::CouncilNode(validator)) => validator.is_jailed(),
            _ => false,
        }
    }

    /// Counts one more operation.
    pub fn inc_nonce(&mut self)
        ensures
            final(self)@ == (StakedStateView { nonce: old(self)@.next_nonce(), ..old(self)@ }),
    {
        self.nonce = self.nonce.wrapping_add(1);
    }
}

} // verus!
