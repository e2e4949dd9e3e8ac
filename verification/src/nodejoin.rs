//! The request to join the network as a node.

use crate::account::{NodeMetadata, NodeMetadataView, Nonce, StakedStateOpAttributes};
use crate::address::StakedStateAddress;
use vstd::prelude::*;

verus! {

/// A request of an account to become a node.
///
/// For a council node the request is granted when the nonce is that of the
/// record, the bonded amount is at least the minimum required, the membership
/// package passes attestation, the account is neither jailed nor an active
/// validator already, and the consensus address is free.
#[derive(Debug, PartialEq, Eq)]
pub struct NodeJoinRequestTx {
    /// The nonce that the record is expected to have.
    pub nonce: Nonce,
    /// The account that asks.
    pub address: StakedStateAddress,
    /// The network and version the request is meant for.
    pub attributes: StakedStateOpAttributes,
    /// The role asked for and what the node declares of itself: what consensus
    /// depends on, such as the validator key, and what is for information.
    pub node_meta: NodeMetadata,
}

/// The mathematical content of a [`NodeJoinRequestTx`].
pub struct NodeJoinRequestTxView {
    pub nonce: Nonce,
    pub address: StakedStateAddress,
    pub attributes: StakedStateOpAttributes,
    pub node_meta: NodeMetadataView,
}

impl View for NodeJoinRequestTx {
    type V = NodeJoinRequestTxView;

    open spec fn view(&self) -> NodeJoinRequestTxView {
        NodeJoinRequestTxView {
            nonce: self.nonce,
            address: self.address,
            attributes: self.attributes,
            node_meta: self.node_meta@,
        }
    }
}

impl Clone for NodeJoinRequestTx {
    fn clone(&self) -> (r: Self)
        ensures
            r@ == self@,
    {
        NodeJoinRequestTx {
            nonce: self.nonce,
            address: self.address,
            attributes: self.attributes,
            node_meta: self.node_meta.clone(),
        }
    }
}

impl NodeJoinRequestTx {
    /// The membership package that the request carries.
    pub fn get_keypackage_payload(&self) -> (payload: &[u8])
        ensures
            payload@ == self@.node_meta.keypackage(),
    {
        match &self.node_meta {
            NodeMetadata::CouncilNode(meta) => meta.node_info.confidential_init.keypackage.as_slice(),
            NodeMetadata::CommunityNode(info) => info.confidential_init.keypackage.as_slice(),
        }
    }

    /// The request made of its parts.
    pub fn new(
        nonce: Nonce,
        address: StakedStateAddress,
        attributes: StakedStateOpAttributes,
        node_meta: NodeMetadata,
    ) -> (tx: NodeJoinRequestTx)
        ensures
            tx == (NodeJoinRequestTx { nonce, address, attributes, node_meta }),
    {
        NodeJoinRequestTx { nonce, address, attributes, node_meta }
    }
}

} // verus!
