//! What holds of the contract as a whole: of every call, of calls that follow one another, and of
//! every storage that calls can lead to.

pub mod attestation_laws;
pub mod bond_laws;
pub mod calls;
pub mod control_laws;
pub mod custody_laws;
pub mod entry_laws;
pub mod history_laws;
pub mod measure_laws;
pub mod slot_laws;
pub mod soundness;
pub mod transfer_laws;
pub mod view_laws;
