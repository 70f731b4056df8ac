//! Client-side round settlement logic for an Ark wallet backend.
//!
//! Ark is a Bitcoin layer-2 batching protocol: many participants periodically
//! settle off-chain "virtual" outputs (VTXOs) into a jointly constructed
//! on-chain transaction tree, coordinated by a server over a multi-step round.
//!
//! This crate holds the verified core of such a client:
//!
//! * [`balance`] classifies a wallet's off-chain and boarding outputs into
//!   spendable / expired / pending buckets and sums the amounts per bucket;
//! * [`coin_select`] picks a covering subset of spendable outputs for a
//!   target amount, honouring the server's dust threshold;
//! * [`forfeit`] plans the forfeit transactions owed for the off-chain
//!   outputs consumed by a round;
//! * [`round`] is the state machine that drives one settlement round against
//!   the coordinator, consuming its event stream and emitting the RPC actions
//!   to perform, in a fixed order, or aborting on any protocol violation.
//!
//! Network transport, key handling and transaction signing are collaborators
//! that live outside this crate; the state machine tells them what to do and
//! validates what they report back.

use vstd::prelude::*;

pub mod balance;
pub mod coin_select;
pub mod explorer;
pub mod forfeit;
pub mod hex;
pub mod redeem;
pub mod round;
pub mod types;
pub mod wire;

verus! {

/// Why a settlement step failed.
///
/// Every failure aborts the round at once and is surfaced to the caller;
/// there is no retry and no resumption of a partially completed round.
#[derive(Clone, Copy, Debug, PartialEq, Eq, Structural)]
pub enum RoundError {
    /// A coordinator response held a malformed field.
    ConversionError,
    /// An event did not match the state being awaited, or carried a foreign
    /// round id.
    ProtocolViolation,
    /// No subset of the spendable outputs covers the requested amount.
    InsufficientFunds,
    /// The change left by a selection, or a forfeit output, would be nonzero
    /// yet below the server's dust threshold.
    BelowDustThreshold,
    /// A key pair or signature aggregation step failed.
    SigningError,
    /// The transport failed or the event stream ended early.
    NetworkError,
}

} // verus!
