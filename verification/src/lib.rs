//! A bond contract: identities put tokens up as a bond, attesters vouch for identities, and an
//! admin slashes, pauses and collects fees.
//!
//! The contract itself is [`CredenceBond`]. It works on a [`Ledger`]: what it sees of the chain
//! during a call (clock, authorizations, its own storage) and the list of things that it asks of
//! the chain in return (notices, token transfers, callbacks).

pub mod address;
pub mod bond;
pub mod contract;
pub mod early_exit_penalty;
pub mod effect;
pub mod error;
pub mod keyed_map;
pub mod laws;
pub mod ledger;
pub mod nonce;
pub mod rolling_bond;
pub mod subject_index;
pub mod tiered_bond;
pub mod types;
pub mod weighted_attestation;

pub use address::{Address, AddressKind};
pub use bond::{BondTier, IdentityBond};
pub use contract::CredenceBond;
pub use effect::{Effect, Event, Hook};
pub use error::ContractError;
pub use ledger::{
    DataKey, EarlyExitConfig, Ledger, Rules, Storage, TierThresholds, WeightConfig,
};
pub use subject_index::SubjectIndex;
pub use types::{Attestation, AttestationDedupKey};
