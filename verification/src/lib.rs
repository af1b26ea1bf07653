//! Three independent ledger state machines for a game economy: a player
//! leaderboard, a token-custody staking vault, and a contested-territory zone
//! map. Each module owns a disjoint set of persistent records and exposes a
//! small number of transition functions; a transition either succeeds and
//! performs all of its record updates, or fails and changes nothing.
//!
//! The execution substrate (durable storage, signature checking, atomic
//! commit) is outside this crate: callers hand each transition the records it
//! touches, the verified identity of the caller, and the current timestamp,
//! and persist the records afterwards.

use vstd::prelude::*;

mod identity;
pub mod leaderboard;
pub mod vault;
pub mod zones;

verus! {

/// The tagged failure reasons a transition can return. Every error aborts the
/// whole transition: the caller observes no record change on failure.
#[derive(Clone, Copy, Debug, PartialEq, Eq, Structural)]
pub enum ErrorCode {
    /// Attempt to create a record at an address that is already initialized.
    AlreadyExists,
    /// The caller's identity does not match the required authority.
    Unauthorized,
    /// An unstake request exceeds the held stake; rejected in full.
    InsufficientFunds,
    /// The token-custody movement did not complete; no bookkeeping changes.
    TransferFailure,
    /// An argument is outside its documented range.
    InvalidArgument,
}

} // verus!
