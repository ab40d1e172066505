//! The liquidity escrow: deposited peg-currency is matched 1:1 by
//! outstanding claim tokens, minted on deposit and burned on
//! withdrawal.

use vstd::prelude::*;

use crate::errors::LiquidityPoolError;
use crate::AccountId;

verus! {

/// A liquidity escrow. `total_liquidity` is the number of currency
/// units held on behalf of claim-token holders; the fee field is
/// recorded at creation but applied nowhere.
#[derive(Clone, Copy, Debug)]
pub struct Pool {
    pub authority: AccountId,
    pub usdc_mint: AccountId,
    pub lp_token_mint: AccountId,
    pub total_liquidity: u64,
    pub fee_basis_points: u16,
}

/// A deposit was escrowed: `usdc_amount` currency units moved from
/// `user` into the pool, and `lp_tokens_minted` claim tokens must be
/// minted to `user` in return.
#[derive(Clone, Copy, Debug, PartialEq, Eq)]
pub struct LiquidityProvidedEvent {
    pub user: AccountId,
    pub usdc_amount: u64,
    pub lp_tokens_minted: u64,
}

/// A withdrawal was honoured: `lp_tokens_burned` claim tokens must be
/// burned from `user`, and `usdc_returned` currency units move from the
/// pool back to `user`.
#[derive(Clone, Copy, Debug, PartialEq, Eq)]
pub struct LiquidityWithdrawnEvent {
    pub user: AccountId,
    pub lp_tokens_burned: u64,
    pub usdc_returned: u64,
}

/// One operation submitted against a pool, as the conservation law
/// models it.
#[derive(Clone, Copy, Debug)]
pub enum PoolOp {
    Deposit { amount: u64 },
    Withdraw { amount: u64 },
}

/// Creates an empty pool over the given currency and claim-token
/// namespaces. The fee is recorded but never applied.
pub fn initialize_pool(
    authority: AccountId,
    usdc_mint: AccountId,
    lp_token_mint: AccountId,
    fee_basis_points: u16,
) -> (p: Pool)
    ensures
        p.authority == authority,
        p.usdc_mint == usdc_mint,
        p.lp_token_mint == lp_token_mint,
        p.total_liquidity == 0,
        p.fee_basis_points == fee_basis_points,
{
    Pool { authority, usdc_mint, lp_token_mint, total_liquidity: 0, fee_basis_points }
}

/// Escrows a deposit. The returned event records the two delegated
/// calls the ledger must perform: transfer `usdc_amount` currency units
/// from `user` to the pool, and mint exactly the same number of claim
/// tokens to `user` — the 1:1 peg, with no fee taken. The tracked
/// liquidity grows by the deposited amount; a deposit that would
/// overflow it is a fatal abort of the whole operation and is excluded
/// by precondition.
pub fn provide_liquidity(pool: &mut Pool, user: AccountId, usdc_amount: u64) -> (ev:
    LiquidityProvidedEvent)
    requires
        old(pool).total_liquidity + usdc_amount <= u64::MAX,
    ensures
        ev.user == user,
        ev.usdc_amount == usdc_amount,
        ev.lp_tokens_minted == usdc_amount,
        final(pool).total_liquidity == old(pool).total_liquidity + usdc_amount,
        final(pool).total_liquidity as int == apply_pool_op(
            old(pool).total_liquidity as int,
            PoolOp::Deposit { amount: usdc_amount },
        ),
        final(pool).authority == old(pool).authority,
        final(pool).usdc_mint == old(pool).usdc_mint,
        final(pool).lp_token_mint == old(pool).lp_token_mint,
        final(pool).fee_basis_points == old(pool).fee_basis_points,
{
    let lp_tokens_to_mint = usdc_amount;
    pool.total_liquidity = pool.total_liquidity + usdc_amount;
    LiquidityProvidedEvent { user, usdc_amount, lp_tokens_minted: lp_tokens_to_mint }
}

/// Honours a withdrawal if the pool tracks enough liquidity. On success
/// the returned event records the two delegated calls the ledger must
/// perform: burn `lp_token_amount` claim tokens from `user`, and return
/// exactly the same number of currency units from the pool to `user` —
/// the 1:1 peg again. The tracked liquidity shrinks by the withdrawn
/// amount; a short pool fails with `InsufficientLiquidity` and is left
/// unchanged.
pub fn withdraw_liquidity(pool: &mut Pool, user: AccountId, lp_token_amount: u64) -> (r: Result<
    LiquidityWithdrawnEvent,
    LiquidityPoolError,
>)
    ensures
        r == Err::<LiquidityWithdrawnEvent, LiquidityPoolError>(
            LiquidityPoolError::InsufficientLiquidity,
        ) <==> lp_token_amount > old(pool).total_liquidity,
        r is Ok <==> lp_token_amount <= old(pool).total_liquidity,
        r matches Ok(ev) ==> ev.user == user && ev.lp_tokens_burned == lp_token_amount
            && ev.usdc_returned == lp_token_amount && final(pool).total_liquidity == old(pool).total_liquidity - lp_token_amount,
        final(pool).total_liquidity as int == apply_pool_op(
            old(pool).total_liquidity as int,
            PoolOp::Withdraw { amount: lp_token_amount },
        ),
        final(pool).authority == old(pool).authority,
        final(pool).usdc_mint == old(pool).usdc_mint,
        final(pool).lp_token_mint == old(pool).lp_token_mint,
        final(pool).fee_basis_points == old(pool).fee_basis_points,
        r is Err ==> *final(pool) == *old(pool),
{
    let usdc_to_return = lp_token_amount;
    if pool.total_liquidity < usdc_to_return {
        return Err(LiquidityPoolError::InsufficientLiquidity);
    }
    pool.total_liquidity = pool.total_liquidity - usdc_to_return;
    Ok(LiquidityWithdrawnEvent {
        user,
        lp_tokens_burned: lp_token_amount,
        usdc_returned: usdc_to_return,
    })
}

/// The tracked liquidity after one operation: a deposit adds its
/// amount; a withdrawal subtracts its amount if covered and otherwise
/// fails, leaving the pool unchanged.
pub open spec fn apply_pool_op(liquidity: int, op: PoolOp) -> int {
    match op {
        PoolOp::Deposit { amount } => liquidity + amount,
        PoolOp::Withdraw { amount } => if amount <= liquidity {
            liquidity - amount
        } else {
            liquidity
        },
    }
}

/// The tracked liquidity after a whole history of operations, starting
/// from a freshly created pool.
pub open spec fn liquidity_after(ops: Seq<PoolOp>) -> int
    decreases ops.len(),
{
    if ops.len() == 0 {
        0
    } else {
        apply_pool_op(liquidity_after(ops.drop_last()), ops.last())
    }
}

/// Currency paid into the escrow over a history: every deposit is
/// escrowed in full.
pub open spec fn currency_deposited(ops: Seq<PoolOp>) -> int
    decreases ops.len(),
{
    if ops.len() == 0 {
        0
    } else {
        currency_deposited(ops.drop_last()) + match ops.last() {
            PoolOp::Deposit { amount } => amount as int,
            PoolOp::Withdraw { amount: _ } => 0,
        }
    }
}

/// Currency paid back out of the escrow over a history: only covered
/// withdrawals move currency.
pub open spec fn currency_withdrawn(ops: Seq<PoolOp>) -> int
    decreases ops.len(),
{
    if ops.len() == 0 {
        0
    } else {
        currency_withdrawn(ops.drop_last()) + match ops.last() {
            PoolOp::Deposit { amount: _ } => 0,
            PoolOp::Withdraw { amount } => if amount <= liquidity_after(ops.drop_last()) {
                amount as int
            } else {
                0
            },
        }
    }
}

/// Claim tokens minted over a history: one per currency unit deposited.
pub open spec fn claim_tokens_minted(ops: Seq<PoolOp>) -> int
    decreases ops.len(),
{
    if ops.len() == 0 {
        0
    } else {
        claim_tokens_minted(ops.drop_last()) + match ops.last() {
            PoolOp::Deposit { amount } => amount as int,
            PoolOp::Withdraw { amount: _ } => 0,
        }
    }
}

/// Claim tokens burned over a history: one per currency unit returned
/// by a covered withdrawal.
pub open spec fn claim_tokens_burned(ops: Seq<PoolOp>) -> int
    decreases ops.len(),
{
    if ops.len() == 0 {
        0
    } else {
        claim_tokens_burned(ops.drop_last()) + match ops.last() {
            PoolOp::Deposit { amount: _ } => 0,
            PoolOp::Withdraw { amount } => if amount <= liquidity_after(ops.drop_last()) {
                amount as int
            } else {
                0
            },
        }
    }
}

/// The conservation law of the escrow: after any history of deposits
/// and withdrawals the tracked liquidity equals the currency deposited
/// minus the currency withdrawn, equals the claim tokens minted minus
/// the claim tokens burned (the outstanding claim-token supply), and is
/// never negative — the 1:1 peg holds at every point between
/// operations.
pub proof fn lemma_liquidity_conservation(ops: Seq<PoolOp>)
    ensures
        liquidity_after(ops) == currency_deposited(ops) - currency_withdrawn(ops),
        liquidity_after(ops) == claim_tokens_minted(ops) - claim_tokens_burned(ops),
        liquidity_after(ops) >= 0,
    decreases ops.len(),
{
    if ops.len() > 0 {
        lemma_liquidity_conservation(ops.drop_last());
    }
}

} // verus!
