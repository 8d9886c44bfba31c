//! What every call of an entry point means, in terms of what it is given, what it answers and what
//! it leaves.
//!
//! Each law speaks of a call that has come back: of the ledger before and after it, its arguments
//! and its answer. The conditions of a call come one after the other, and the first that fails is
//! the reason given; a refused call leaves everything as it was. An accepted call changes the slots
//! that the law names and asks the ledger for the things that the law lists, in that order, and
//! leaves everything else as it was.

pub mod attesting;
pub mod bonding;
pub mod guarded;
pub mod paying;
pub mod readers;
pub mod settings;
pub mod shapes;
