//! Staking ledger and validator-membership state machine of a proof-of-stake
//! chain: the per-account staking record, the index of consensus addresses in
//! use, and the transitions that join a validator, release it from jail, and
//! move value between the bonded and the unbonded balance.

pub mod account;
pub mod address;
pub mod assoc;
pub mod coin;
pub mod enclave;
pub mod fee;
pub mod index;
pub mod invariants;
pub mod laws;
pub mod nodejoin;
pub mod rotation;
pub mod store;
pub mod table;
pub mod transaction_command;
pub mod tx;
pub mod tx_error;
