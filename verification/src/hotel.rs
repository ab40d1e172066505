//! The asset registry: a capacity-bounded pool of issuable room tokens
//! together with the revenue accrued from bookings and its pro-rata
//! distribution to token holders.

use vstd::arithmetic::div_mod::lemma_div_pos_is_pos;
use vstd::arithmetic::div_mod::lemma_fundamental_div_mod;
use vstd::arithmetic::div_mod::lemma_mod_bound;
use vstd::arithmetic::div_mod::lemma_remainder_lower;
use vstd::arithmetic::mul::lemma_mul_inequality;
use vstd::prelude::*;

use crate::errors::HotelError;
use crate::AccountId;

verus! {

/// An asset registry: `room_count` is the issuance cap, `rooms_minted`
/// the number of room tokens issued so far, and `total_profit` the
/// booking revenue accrued and not yet distributed.
#[derive(Clone, Copy, Debug)]
pub struct Hotel {
    pub authority: AccountId,
    pub room_count: u64,
    pub rooms_minted: u64,
    pub total_profit: u64,
}

impl Hotel {
    /// Issuance never exceeds the cap.
    pub open spec fn wf(self) -> bool {
        self.rooms_minted <= self.room_count
    }
}

/// A booking was paid: `price` currency units moved from `tourist`
/// into the registry's escrow.
#[derive(Clone, Copy, Debug, PartialEq, Eq)]
pub struct BookingEvent {
    pub room_number: u64,
    pub tourist: AccountId,
    pub price: u64,
}

/// A distribution was paid out: `amount` currency units moved from the
/// registry's escrow to `user`.
#[derive(Clone, Copy, Debug, PartialEq, Eq)]
pub struct ProfitDistributionEvent {
    pub user: AccountId,
    pub amount: u64,
}

/// Creates a registry with the given issuance cap, no tokens issued and
/// no revenue accrued. The fee field is accepted for interface parity
/// but plays no role in any operation.
pub fn initialize_hotel(
    authority: AccountId,
    room_count: u64,
    _transfer_fee_basis_points: u16,
) -> (h: Hotel)
    ensures
        h.authority == authority,
        h.room_count == room_count,
        h.rooms_minted == 0,
        h.total_profit == 0,
        h.wf(),
{
    Hotel { authority, room_count, rooms_minted: 0, total_profit: 0 }
}

/// Issues one room token. On success the returned value is the number of
/// token units the ledger must mint to the caller — always exactly one —
/// and the issuance counter advances by one. The room number is checked
/// against the cap but is not otherwise used, tracked, or required to be
/// unique.
pub fn mint_room_token(hotel: &mut Hotel, room_number: u64) -> (r: Result<u64, HotelError>)
    requires
        old(hotel).wf(),
    ensures
        final(hotel).wf(),
        r == Err::<u64, HotelError>(HotelError::InvalidRoomNumber) <==> room_number > old(hotel).room_count,
        r == Err::<u64, HotelError>(HotelError::AllRoomsMinted) <==> (room_number <= old(hotel).room_count && old(hotel).rooms_minted == old(hotel).room_count),
        r is Ok <==> (room_number <= old(hotel).room_count && old(hotel).rooms_minted < old(hotel).room_count),
        r matches Ok(minted) ==> minted == 1 && final(hotel).rooms_minted == old(hotel).rooms_minted + 1,
        r is Ok ==> final(hotel).authority == old(hotel).authority && final(hotel).room_count
            == old(hotel).room_count && final(hotel).total_profit == old(hotel).total_profit,
        r is Err ==> *final(hotel) == *old(hotel),
{
    if room_number > hotel.room_count {
        return Err(HotelError::InvalidRoomNumber);
    }
    if hotel.rooms_minted >= hotel.room_count {
        return Err(HotelError::AllRoomsMinted);
    }
    hotel.rooms_minted = hotel.rooms_minted + 1;
    Ok(1)
}

/// Accrues booking revenue. On success the returned event records the
/// transfer the ledger must perform — `price` currency units from
/// `tourist` to the registry's escrow — and the accrual balance grows by
/// exactly that amount. An accrual that would overflow the balance is a
/// fatal abort of the whole operation and is excluded by precondition.
pub fn book_room(
    hotel: &mut Hotel,
    room_number: u64,
    booking_price: u64,
    tourist: AccountId,
) -> (r: Result<BookingEvent, HotelError>)
    requires
        old(hotel).wf(),
        old(hotel).total_profit + booking_price <= u64::MAX,
    ensures
        final(hotel).wf(),
        r == Err::<BookingEvent, HotelError>(HotelError::InvalidRoomNumber) <==> room_number > old(hotel).room_count,
        r is Ok <==> room_number <= old(hotel).room_count,
        r matches Ok(ev) ==> ev.room_number == room_number && ev.tourist == tourist && ev.price
            == booking_price,
        r is Ok ==> final(hotel).total_profit == old(hotel).total_profit + booking_price && final(hotel).authority == old(hotel).authority && final(hotel).room_count == old(hotel).room_count
            && final(hotel).rooms_minted == old(hotel).rooms_minted,
        r is Err ==> *final(hotel) == *old(hotel),
{
    if room_number > hotel.room_count {
        return Err(HotelError::InvalidRoomNumber);
    }
    hotel.total_profit = hotel.total_profit + booking_price;
    Ok(BookingEvent { room_number, tourist, price: booking_price })
}

/// The per-token payout rate: accrued revenue divided by the number of
/// outstanding tokens, rounded down.
pub open spec fn per_unit_share(profit: int, supply: int) -> int
    recommends
        supply > 0,
{
    profit / supply
}

/// The payout owed to a holder of `balance` tokens at the current rate.
pub open spec fn claimant_share(profit: int, supply: int, balance: int) -> int {
    per_unit_share(profit, supply) * balance
}

/// The revenue left accrued after paying a holder of `balance` tokens.
pub open spec fn profit_after_claim(profit: int, supply: int, balance: int) -> int {
    profit - claimant_share(profit, supply, balance)
}

/// Pays one claimant its pro-rata share of the accrued revenue, at the
/// rate current when the call is made. On success the returned event
/// records the transfer the ledger must perform — `amount` currency
/// units from the registry's escrow to `user` — and the accrual balance
/// shrinks by exactly that amount; the floor-division remainder stays
/// accrued. The claimant's balance can never exceed the outstanding
/// supply, since per-holder balances sum to it.
pub fn distribute_profits(
    hotel: &mut Hotel,
    user: AccountId,
    user_token_balance: u64,
    total_supply: u64,
) -> (r: Result<ProfitDistributionEvent, HotelError>)
    requires
        old(hotel).wf(),
        user_token_balance <= total_supply,
    ensures
        final(hotel).wf(),
        r == Err::<ProfitDistributionEvent, HotelError>(HotelError::NoProfitToDistribute) <==> old(hotel).total_profit == 0,
        r == Err::<ProfitDistributionEvent, HotelError>(HotelError::NoRoomTokensOutstanding) <==> (
        old(hotel).total_profit > 0 && total_supply == 0),
        r is Ok <==> (old(hotel).total_profit > 0 && total_supply > 0),
        r matches Ok(ev) ==> ev.user == user && ev.amount == claimant_share(
            old(hotel).total_profit as int,
            total_supply as int,
            user_token_balance as int,
        ) && final(hotel).total_profit == profit_after_claim(
            old(hotel).total_profit as int,
            total_supply as int,
            user_token_balance as int,
        ),
        r is Ok ==> final(hotel).authority == old(hotel).authority && final(hotel).room_count
            == old(hotel).room_count && final(hotel).rooms_minted == old(hotel).rooms_minted,
        r is Err ==> *final(hotel) == *old(hotel),
{
    let profit = hotel.total_profit;
    if profit == 0 {
        return Err(HotelError::NoProfitToDistribute);
    }
    if total_supply == 0 {
        return Err(HotelError::NoRoomTokensOutstanding);
    }
    let profit_per_token = profit / total_supply;
    proof {
        lemma_share_bounded(profit as int, total_supply as int, user_token_balance as int);
    }
    let user_profit = profit_per_token * user_token_balance;
    hotel.total_profit = profit - user_profit;
    Ok(ProfitDistributionEvent { user, amount: user_profit })
}

/// A pro-rata payout is never negative and never exceeds the accrued
/// revenue it is drawn from, whenever the claimant's balance is at most
/// the outstanding supply. Hence the accrual balance never goes
/// negative.
pub proof fn lemma_share_bounded(profit: int, supply: int, balance: int)
    requires
        0 <= profit,
        0 < supply,
        0 <= balance <= supply,
    ensures
        0 <= claimant_share(profit, supply, balance) <= profit,
{
    let q: int = profit / supply;
    lemma_div_pos_is_pos(profit, supply);
    lemma_mul_inequality(balance, supply, q);
    lemma_remainder_lower(profit, supply);
    assert(balance * q == q * balance) by (nonlinear_arith);
    assert(supply * q == q * supply) by (nonlinear_arith);
}

/// A claimant holding the whole outstanding supply drains the accrued
/// revenue down to exactly its remainder modulo the supply: the balance
/// is zeroed exactly when the revenue divides evenly, and otherwise the
/// truncation remainder stays behind.
pub proof fn lemma_full_balance_distribution(profit: int, supply: int)
    requires
        0 <= profit,
        0 < supply,
    ensures
        profit_after_claim(profit, supply, supply) == profit % supply,
        profit_after_claim(profit, supply, supply) == 0 <==> profit % supply == 0,
        0 <= profit_after_claim(profit, supply, supply) < supply,
{
    lemma_fundamental_div_mod(profit, supply);
    lemma_mod_bound(profit, supply);
    assert(supply * (profit / supply) == (profit / supply) * supply) by (nonlinear_arith);
}

/// Distributing to two claimants is order-independent whenever the
/// per-token rate is left unchanged by the first payout, whichever
/// claimant goes first: both orders leave the same revenue accrued.
/// Without that stability the two orders can differ, because the second
/// payout is computed at the rate current after the first.
pub proof fn lemma_distribution_order_independent(profit: int, supply: int, a: int, b: int)
    requires
        0 <= profit,
        0 < supply,
        0 <= a <= supply,
        0 <= b <= supply,
        per_unit_share(profit_after_claim(profit, supply, a), supply) == per_unit_share(
            profit,
            supply,
        ),
        per_unit_share(profit_after_claim(profit, supply, b), supply) == per_unit_share(
            profit,
            supply,
        ),
    ensures
        profit_after_claim(profit_after_claim(profit, supply, a), supply, b) == profit_after_claim(
            profit_after_claim(profit, supply, b),
            supply,
            a,
        ),
{
}

} // verus!
