//! Transaction-processing core for namespaced, permissioned smart contracts.
//!
//! The crate maintains an on-chain registry of contracts, namespaces,
//! permissions, accounts and organizations, and checks every mutation
//! against the ownership and administration rules of the ledger.
//!
//! A transaction travels through three layers: [`payload`] validates the
//! decoded action's structure, [`handler`] enforces authorization and
//! performs the mutation, and [`state`] keeps the per-address collision
//! lists over addresses derived in [`addressing`].  For contract
//! execution, [`handler`] checks every declared namespace permission and
//! [`host`] provides the scratch arena the sandboxed module is fed
//! through; the sandbox itself runs outside this crate.  [`laws`] states
//! and proves what holds across these layers.

use vstd::prelude::*;

mod hashing;
mod keyed;
mod strutil;

pub mod addressing;
pub mod error;
pub mod handler;
pub mod host;
pub mod laws;
pub mod payload;
pub mod protocol;
pub mod setting;
pub mod state;

verus! {

/// Address of the externally managed settings entry that lists the
/// platform administrators.
pub const ADMINISTRATORS_SETTING_ADDRESS: &'static str =
    "000000a87cb5eafdcca6a814e4add97c4b517d3c530c2f44b31d18e3b0c44298fc1c14";

/// Key of the administrators entry inside the settings blob.
pub const ADMINISTRATORS_SETTING_KEY: &'static str = "sawtooth.swa.administrators";

} // verus!
