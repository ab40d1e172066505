use hotel_coconut::hotel::book_room;
use hotel_coconut::hotel::distribute_profits;
use hotel_coconut::hotel::initialize_hotel;
use hotel_coconut::hotel::mint_room_token;
use hotel_coconut::AccountId;
use hotel_coconut::HotelError;

fn acct(tag: u8) -> AccountId {
    AccountId { bytes: [tag; 32] }
}

#[test]
fn initialize_sets_counters_to_zero() {
    let h = initialize_hotel(acct(1), 42, 250);
    assert_eq!(h.authority, acct(1));
    assert_eq!(h.room_count, 42);
    assert_eq!(h.rooms_minted, 0);
    assert_eq!(h.total_profit, 0);
}

#[test]
fn issuance_stops_exactly_at_the_cap() {
    let mut h = initialize_hotel(acct(1), 10, 0);
    for room in 1..=10u64 {
        let r = mint_room_token(&mut h, room);
        assert_eq!(r, Ok(1));
    }
    assert_eq!(h.rooms_minted, 10);
    let eleventh = mint_room_token(&mut h, 5);
    assert_eq!(eleventh, Err(HotelError::AllRoomsMinted));
    assert_eq!(h.rooms_minted, 10);
}

#[test]
fn issuance_rejects_a_room_number_beyond_the_cap() {
    let mut h = initialize_hotel(acct(1), 10, 0);
    let r = mint_room_token(&mut h, 11);
    assert_eq!(r, Err(HotelError::InvalidRoomNumber));
    assert_eq!(h.rooms_minted, 0);
}

#[test]
fn zero_capacity_registry_cannot_issue() {
    let mut h = initialize_hotel(acct(1), 0, 0);
    let r = mint_room_token(&mut h, 0);
    assert_eq!(r, Err(HotelError::AllRoomsMinted));
}

#[test]
fn booking_accrues_the_exact_price() {
    let mut h = initialize_hotel(acct(1), 10, 0);
    let ev = book_room(&mut h, 3, 250, acct(7)).unwrap();
    assert_eq!(ev.room_number, 3);
    assert_eq!(ev.tourist, acct(7));
    assert_eq!(ev.price, 250);
    assert_eq!(h.total_profit, 250);
    let ev2 = book_room(&mut h, 4, 50, acct(8)).unwrap();
    assert_eq!(ev2.price, 50);
    assert_eq!(h.total_profit, 300);
}

#[test]
fn booking_rejects_a_room_number_beyond_the_cap() {
    let mut h = initialize_hotel(acct(1), 10, 0);
    let r = book_room(&mut h, 11, 250, acct(7));
    assert_eq!(r, Err(HotelError::InvalidRoomNumber));
    assert_eq!(h.total_profit, 0);
}

#[test]
fn distribution_pays_the_floored_per_token_rate() {
    let mut h = initialize_hotel(acct(1), 10, 0);
    book_room(&mut h, 1, 100, acct(7)).unwrap();

    // 100 accrued over 3 outstanding tokens: the rate is 33.
    let first = distribute_profits(&mut h, acct(2), 1, 3).unwrap();
    assert_eq!(first.user, acct(2));
    assert_eq!(first.amount, 33);
    assert_eq!(h.total_profit, 67);

    // The second claimant draws at the rate current after the first
    // payout: 67 over 3 tokens is 22 per token.
    let second = distribute_profits(&mut h, acct(3), 2, 3).unwrap();
    assert_eq!(second.amount, 44);
    assert_eq!(h.total_profit, 23);
}

#[test]
fn full_balance_claimant_leaves_exactly_the_remainder() {
    let mut h = initialize_hotel(acct(1), 10, 0);
    book_room(&mut h, 1, 100, acct(7)).unwrap();
    let ev = distribute_profits(&mut h, acct(2), 3, 3).unwrap();
    assert_eq!(ev.amount, 99);
    assert_eq!(h.total_profit, 1);
}

#[test]
fn full_balance_claimant_zeroes_an_evenly_divisible_accrual() {
    let mut h = initialize_hotel(acct(1), 10, 0);
    book_room(&mut h, 1, 100, acct(7)).unwrap();
    let ev = distribute_profits(&mut h, acct(2), 4, 4).unwrap();
    assert_eq!(ev.amount, 100);
    assert_eq!(h.total_profit, 0);
}

#[test]
fn distribution_orders_agree_when_the_rate_is_stable() {
    // 17 accrued over 10 tokens: the rate is 1 and stays 1 after either
    // payout, so paying balances 3 and 4 commutes.
    let mut ab = initialize_hotel(acct(1), 10, 0);
    book_room(&mut ab, 1, 17, acct(7)).unwrap();
    distribute_profits(&mut ab, acct(2), 3, 10).unwrap();
    distribute_profits(&mut ab, acct(3), 4, 10).unwrap();

    let mut ba = initialize_hotel(acct(1), 10, 0);
    book_room(&mut ba, 1, 17, acct(7)).unwrap();
    distribute_profits(&mut ba, acct(3), 4, 10).unwrap();
    distribute_profits(&mut ba, acct(2), 3, 10).unwrap();

    assert_eq!(ab.total_profit, 10);
    assert_eq!(ba.total_profit, 10);
}

#[test]
fn distribution_fails_with_nothing_accrued() {
    let mut h = initialize_hotel(acct(1), 10, 0);
    let r = distribute_profits(&mut h, acct(2), 1, 3);
    assert_eq!(r, Err(HotelError::NoProfitToDistribute));
}

#[test]
fn distribution_fails_with_no_tokens_outstanding() {
    let mut h = initialize_hotel(acct(1), 10, 0);
    book_room(&mut h, 1, 100, acct(7)).unwrap();
    let r = distribute_profits(&mut h, acct(2), 0, 0);
    assert_eq!(r, Err(HotelError::NoRoomTokensOutstanding));
    assert_eq!(h.total_profit, 100);
}

#[test]
fn zero_balance_claimant_receives_nothing() {
    let mut h = initialize_hotel(acct(1), 10, 0);
    book_room(&mut h, 1, 100, acct(7)).unwrap();
    let ev = distribute_profits(&mut h, acct(2), 0, 3).unwrap();
    assert_eq!(ev.amount, 0);
    assert_eq!(h.total_profit, 100);
}
