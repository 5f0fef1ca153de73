//! Contribution accounting: conversion, buy bounds, the cumulative purchase
//! cap, totals and the participant count.

use token_sale::balances::read_participants_count;
use token_sale::contract::TokenSale;
use token_sale::storage_types::{Error, Escrow, EscrowDirection, Ledger};

fn led(timestamp: u64, sequence: u32) -> Ledger {
    Ledger { timestamp, sequence }
}

/// Parameters {start 0, end 1000, soft 500, hard 1000, min 10, max 200,
/// tge 1000}, one payment asset (7) with rate 2.
fn configured_sale() -> TokenSale {
    let mut sale = TokenSale::new();
    sale.initialize(1).unwrap();
    sale.set_sale_token(1, 99).unwrap();
    sale.set_payment_token(1, 7).unwrap();
    sale.set_sale_parameters(&led(0, 0), 1, 0, 1000, 500, 1000, 10, 200, 1000)
        .unwrap();
    sale.set_swap_rate(&led(0, 0), 1, 7, 2).unwrap();
    sale.set_fund_recipient(1, 5).unwrap();
    sale
}

#[test]
fn contribution_converts_at_the_rate_and_caps_cumulative_purchases() {
    let mut sale = configured_sale();
    let t = led(10, 1);
    // 50 at rate 2 purchases 100, inside [10, 200]
    let escrow = sale.contribute(&t, 42, 7, 50).unwrap();
    assert_eq!(
        escrow,
        Escrow {
            direction: EscrowDirection::IntoCustody,
            token: 7,
            counterparty: 42,
            amount: 50,
        }
    );
    assert_eq!(sale.get_participant_total_purchase(&t, 42), 100);
    assert_eq!(sale.get_participant_contribution(&t, 42, 7), 50);
    assert_eq!(sale.get_total_contribution(&t, 7), 50);
    assert_eq!(sale.get_total_sold(&t), 100);
    // a second 60 would purchase 120, cumulative 220 above max_buy 200
    assert_eq!(sale.contribute(&t, 42, 7, 60), Err(Error::MaxBuyExceeded));
    // the rejection left every balance as it was
    assert_eq!(sale.get_participant_total_purchase(&t, 42), 100);
    assert_eq!(sale.get_participant_contribution(&t, 42, 7), 50);
    assert_eq!(sale.get_total_contribution(&t, 7), 50);
    assert_eq!(sale.get_total_sold(&t), 100);
}

#[test]
fn contribution_guards_reject_in_order() {
    let mut sale = configured_sale();
    let t = led(10, 1);
    assert_eq!(sale.contribute(&t, 42, 8, 50), Err(Error::UnsupportedPaymentToken));
    assert_eq!(
        sale.contribute(&led(1001, 1), 42, 7, 50),
        Err(Error::SaleOver)
    );
    assert_eq!(sale.contribute(&t, 42, 7, -1), Err(Error::InvalidAmount));
    // 4 at rate 2 purchases 8, below min_buy 10
    assert_eq!(sale.contribute(&t, 42, 7, 4), Err(Error::BelowMinBuy));
    // 101 at rate 2 purchases 202, above max_buy 200
    assert_eq!(sale.contribute(&t, 42, 7, 101), Err(Error::AboveMaxBuy));
    // nothing was recorded
    assert_eq!(sale.get_total_sold(&t), 0);
    assert_eq!(read_participants_count(&mut sale, 1), 0);
}

#[test]
fn contribution_at_the_end_time_is_still_accepted() {
    let mut sale = configured_sale();
    let t = led(1000, 1);
    assert!(sale.contribute(&t, 42, 7, 50).is_ok());
}

#[test]
fn buy_bounds_apply_to_converted_units() {
    let mut sale = configured_sale();
    let t = led(10, 1);
    // 5 at rate 2 purchases exactly min_buy 10
    assert!(sale.contribute(&t, 42, 7, 5).is_ok());
    assert_eq!(sale.get_participant_total_purchase(&t, 42), 10);
    // 100 at rate 2 purchases exactly max_buy 200 for a fresh participant
    assert!(sale.contribute(&t, 43, 7, 100).is_ok());
    assert_eq!(sale.get_participant_total_purchase(&t, 43), 200);
}

#[test]
fn unset_rate_converts_to_zero_and_fails_the_minimum() {
    let mut sale = configured_sale();
    sale.set_payment_token(1, 8).unwrap();
    // asset 8 is supported but has no rate: everything converts to 0 < 10
    assert_eq!(
        sale.contribute(&led(10, 1), 42, 8, 1000),
        Err(Error::BelowMinBuy)
    );
}

#[test]
fn sold_total_accumulates_purchases_of_all_participants() {
    let mut sale = configured_sale();
    let t = led(10, 1);
    sale.contribute(&t, 42, 7, 50).unwrap();
    sale.contribute(&t, 43, 7, 70).unwrap();
    sale.contribute(&t, 42, 7, 30).unwrap();
    let sold = sale.get_total_sold(&t);
    let p42 = sale.get_participant_total_purchase(&t, 42);
    let p43 = sale.get_participant_total_purchase(&t, 43);
    assert_eq!(p42, 160);
    assert_eq!(p43, 140);
    assert_eq!(sold, p42 + p43);
}

#[test]
fn participants_count_grows_on_first_purchase_only() {
    let mut sale = configured_sale();
    let t = led(10, 1);
    assert_eq!(read_participants_count(&mut sale, 1), 0);
    sale.contribute(&t, 42, 7, 50).unwrap();
    assert_eq!(read_participants_count(&mut sale, 1), 1);
    sale.contribute(&t, 42, 7, 20).unwrap();
    assert_eq!(read_participants_count(&mut sale, 1), 1);
    sale.contribute(&t, 43, 7, 50).unwrap();
    assert_eq!(read_participants_count(&mut sale, 1), 2);
}

#[test]
fn additions_that_leave_the_signed_range_are_rejected_whole() {
    // min_buy 0 and an unset rate let an arbitrarily large raw amount in
    let mut sale = TokenSale::new();
    sale.initialize(1).unwrap();
    sale.set_sale_token(1, 99).unwrap();
    sale.set_payment_token(1, 7).unwrap();
    sale.set_sale_parameters(&led(0, 0), 1, 0, 1000, 500, 1000, 0, 200, 1000)
        .unwrap();
    let t = led(10, 1);
    sale.contribute(&t, 42, 7, i128::MAX).unwrap();
    assert_eq!(sale.get_participant_contribution(&t, 42, 7), i128::MAX);
    assert_eq!(sale.contribute(&t, 42, 7, 1), Err(Error::Overflow));
    assert_eq!(sale.get_participant_contribution(&t, 42, 7), i128::MAX);
    // valuing that balance at a positive rate leaves the range too
    sale.set_swap_rate(&t, 1, 7, 2).unwrap();
    assert_eq!(sale.get_payment_purchases(&t, 42, 7), Err(Error::Overflow));
}

#[test]
fn payment_purchases_values_the_standing_contribution() {
    let mut sale = configured_sale();
    let t = led(10, 1);
    sale.contribute(&t, 42, 7, 50).unwrap();
    assert_eq!(sale.get_payment_purchases(&t, 42, 7), Ok(100));
    assert_eq!(sale.get_payment_purchases(&t, 43, 7), Ok(0));
}
