//! Accounting core of a ledger-backed revenue-sharing and escrow system.
//!
//! Two independent subsystems share one bookkeeping pattern:
//!
//! * an asset registry (`hotel`) with a fixed issuance cap, a revenue
//!   accrual balance, and pro-rata distribution of that balance to
//!   token holders;
//! * a liquidity escrow (`pool`) that keeps a 1:1 peg between deposited
//!   currency and outstanding claim tokens.
//!
//! Every operation here is a single state transition on plain values.
//! The delegated calls to the host ledger (minting, transferring and
//! burning tokens) are described by each operation's result — the amounts
//! the ledger must move — and are performed by the surrounding program,
//! which supplies the atomicity: either the delegated calls and the field
//! updates all take effect, or none do.

use vstd::prelude::*;

pub mod errors;
pub mod hotel;
pub mod pool;

pub use errors::HotelError;
pub use errors::LiquidityPoolError;
pub use hotel::BookingEvent;
pub use hotel::Hotel;
pub use hotel::ProfitDistributionEvent;
pub use pool::LiquidityProvidedEvent;
pub use pool::LiquidityWithdrawnEvent;
pub use pool::Pool;

verus! {

/// A 32-byte public-key identifier of an account on the host ledger.
///
/// The core never interprets the bytes; it only records which account
/// an operation concerned.
#[derive(Clone, Copy, Debug, PartialEq, Eq)]
pub struct AccountId {
    pub bytes: [u8; 32],
}

} // verus!
