//! Domain errors reported synchronously by the registry and pool
//! operations. Failures of the delegated ledger calls themselves are
//! surfaced by the host, not here.

use vstd::prelude::*;

verus! {

/// Failures of the asset-registry operations.
#[derive(Clone, Copy, Debug, PartialEq, Eq, Structural)]
pub enum HotelError {
    /// The requested room number exceeds the registry's capacity.
    InvalidRoomNumber,
    /// Every issuable room token has already been minted.
    AllRoomsMinted,
    /// Distribution was attempted while no revenue is accrued.
    NoProfitToDistribute,
    /// Distribution was attempted while no room tokens are outstanding,
    /// so no per-token share can be computed.
    NoRoomTokensOutstanding,
}

/// Failures of the liquidity-escrow operations.
#[derive(Clone, Copy, Debug, PartialEq, Eq, Structural)]
pub enum LiquidityPoolError {
    /// A withdrawal asked for more than the pool's tracked liquidity.
    InsufficientLiquidity,
}

} // verus!
