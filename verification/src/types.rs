//! Plain values shared by both contract variants.

use vstd::prelude::*;

verus! {

/// An account, contract or token identity, as the host ledger numbers them.
///
/// The ledger's own identities are opaque handles; the deployment assigns
/// each one a number and hands that number in here.
#[derive(Clone, Copy, PartialEq, Eq, Structural, Debug, Hash)]
pub struct Identity(pub u64);

/// One side of a balance movement: an external account, or the contract's
/// own custody.
#[derive(Clone, Copy, PartialEq, Eq, Structural, Debug)]
pub enum Party {
    Account(Identity),
    Contract,
}

/// A balance movement that the host's fund-transfer service is asked to
/// perform atomically. The contract never moves funds itself: a successful
/// donation or withdrawal returns the transfer it requires, and the host
/// commits the new state only if the transfer went through.
#[derive(Clone, Copy, PartialEq, Eq, Structural, Debug)]
pub struct Transfer {
    pub from: Party,
    pub to: Party,
    /// The asset being moved, e.g. the token configured at escrow setup.
    pub asset: Identity,
    /// Amount in the asset's smallest indivisible unit.
    pub amount: i128,
}

/// Why an entry point rejected a call. A rejected call mutates nothing.
#[derive(Clone, Copy, PartialEq, Eq, Structural, Debug)]
pub enum Error {
    /// A second `initialize` after the guard key exists.
    AlreadyInitialized,
    /// A non-positive amount or target.
    InvalidAmount,
    /// No record under the given campaign id, or no escrow set up yet.
    NotFound,
    /// The authorization oracle did not confirm the required identity.
    Unauthorized,
    /// A donation after the escrow deadline.
    CampaignExpired,
    /// A withdrawal before the escrow deadline.
    DeadlineNotReached,
    /// A withdrawal while the total raised is still below the target.
    TargetNotMet,
    /// Crediting the donation would overflow the 128-bit accumulator;
    /// the call fails closed instead of wrapping.
    ArithmeticOverflow,
}

} // verus!
