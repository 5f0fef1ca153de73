//! Initialization, configuration actions and their gating.

use token_sale::contract::TokenSale;
use token_sale::storage_types::{Error, Escrow, EscrowDirection, Ledger};

fn led(timestamp: u64, sequence: u32) -> Ledger {
    Ledger { timestamp, sequence }
}

#[test]
fn initialize_stores_admin_once() {
    let mut sale = TokenSale::new();
    assert_eq!(sale.get_admin(), Err(Error::NotInitialized));
    assert_eq!(sale.initialize(1), Ok(()));
    assert_eq!(sale.get_admin(), Ok(1));
    assert_eq!(sale.initialize(2), Err(Error::AlreadyInitialized));
    assert_eq!(sale.get_admin(), Ok(1));
}

#[test]
fn admin_gate_rejects_other_callers() {
    let mut sale = TokenSale::new();
    assert_eq!(sale.set_sale_token(1, 99), Err(Error::NotInitialized));
    sale.initialize(1).unwrap();
    assert_eq!(sale.set_sale_token(2, 99), Err(Error::Unauthorized));
    assert_eq!(sale.set_payment_token(2, 7), Err(Error::Unauthorized));
    assert_eq!(sale.set_fund_recipient(2, 5), Err(Error::Unauthorized));
    assert_eq!(sale.set_swap_rate(&led(0, 0), 2, 7, 1), Err(Error::Unauthorized));
    assert_eq!(
        sale.set_sale_parameters(&led(0, 0), 2, 0, 10, 1, 1, 0, 0, 10),
        Err(Error::Unauthorized)
    );
    assert_eq!(sale.set_sale_token(1, 99), Ok(()));
    assert_eq!(sale.get_sale_token(), Ok(99));
}

#[test]
fn parameter_validation_rejects_each_invariant_violation() {
    let mut sale = TokenSale::new();
    sale.initialize(1).unwrap();
    sale.set_sale_token(1, 99).unwrap();
    let now = led(100, 0);
    // end_time must exceed the current time
    assert_eq!(
        sale.set_sale_parameters(&now, 1, 0, 100, 500, 1000, 10, 200, 1000),
        Err(Error::InvalidParameters)
    );
    // end_time must not precede start_time
    assert_eq!(
        sale.set_sale_parameters(&now, 1, 400, 300, 500, 1000, 10, 200, 1000),
        Err(Error::InvalidParameters)
    );
    // soft_cap must be positive
    assert_eq!(
        sale.set_sale_parameters(&now, 1, 0, 1000, 0, 1000, 10, 200, 1000),
        Err(Error::InvalidParameters)
    );
    // hard_cap must not be below soft_cap
    assert_eq!(
        sale.set_sale_parameters(&now, 1, 0, 1000, 500, 499, 10, 200, 1000),
        Err(Error::InvalidParameters)
    );
    // max_buy must not be below min_buy
    assert_eq!(
        sale.set_sale_parameters(&now, 1, 0, 1000, 500, 1000, 201, 200, 1000),
        Err(Error::InvalidParameters)
    );
    // tge_time must not precede end_time
    assert_eq!(
        sale.set_sale_parameters(&now, 1, 0, 1000, 500, 1000, 10, 200, 999),
        Err(Error::InvalidParameters)
    );
    assert_eq!(sale.get_sales_parameters().end_time, 0);
}

#[test]
fn parameters_require_sale_token_and_escrow_the_hard_cap() {
    let mut sale = TokenSale::new();
    sale.initialize(1).unwrap();
    assert_eq!(
        sale.set_sale_parameters(&led(0, 0), 1, 0, 1000, 500, 1000, 10, 200, 1000),
        Err(Error::SaleTokenNotSet)
    );
    sale.set_sale_token(1, 99).unwrap();
    let escrow = sale
        .set_sale_parameters(&led(0, 0), 1, 0, 1000, 500, 1000, 10, 200, 1000)
        .unwrap();
    assert_eq!(
        escrow,
        Escrow {
            direction: EscrowDirection::IntoCustody,
            token: 99,
            counterparty: 1,
            amount: 1000,
        }
    );
    let params = sale.get_sales_parameters();
    assert_eq!(params.start_time, 0);
    assert_eq!(params.end_time, 1000);
    assert_eq!(params.soft_cap, 500);
    assert_eq!(params.hard_cap, 1000);
    assert_eq!(params.min_buy, 10);
    assert_eq!(params.max_buy, 200);
    assert_eq!(params.tge_time, 1000);
}

#[test]
fn registry_is_append_only_and_rates_need_support() {
    let mut sale = TokenSale::new();
    sale.initialize(1).unwrap();
    assert_eq!(
        sale.set_swap_rate(&led(0, 0), 1, 7, 2),
        Err(Error::UnsupportedPaymentToken)
    );
    sale.set_payment_token(1, 7).unwrap();
    sale.set_payment_token(1, 8).unwrap();
    assert_eq!(sale.get_supported_tokens(), vec![7, 8]);
    assert_eq!(sale.set_swap_rate(&led(0, 0), 1, 7, 2), Ok(()));
    assert_eq!(sale.get_sale_rate(&led(0, 1), 7), 2);
    assert_eq!(sale.get_sale_rate(&led(0, 1), 8), 0);
    // a rate of zero deactivates without removing support
    assert_eq!(sale.set_swap_rate(&led(0, 0), 1, 7, 0), Ok(()));
    assert_eq!(sale.get_sale_rate(&led(0, 1), 7), 0);
    assert_eq!(sale.get_supported_tokens(), vec![7, 8]);
}

#[test]
fn active_payment_assets_need_a_nonzero_rate() {
    // two registered assets, a rate only on the first: only it is active
    let mut sale = TokenSale::new();
    sale.initialize(1).unwrap();
    sale.set_payment_token(1, 7).unwrap();
    sale.set_payment_token(1, 8).unwrap();
    sale.set_swap_rate(&led(0, 0), 1, 7, 2).unwrap();
    assert_eq!(sale.get_payment_options(&led(0, 0)), vec![7]);
    sale.set_swap_rate(&led(0, 0), 1, 8, 3).unwrap();
    assert_eq!(sale.get_payment_options(&led(0, 0)), vec![7, 8]);
    sale.set_swap_rate(&led(0, 0), 1, 7, 0).unwrap();
    assert_eq!(sale.get_payment_options(&led(0, 0)), vec![8]);
}

#[test]
fn fund_recipient_is_stored_and_read() {
    let mut sale = TokenSale::new();
    sale.initialize(1).unwrap();
    assert_eq!(sale.get_fund_recipient(), Err(Error::FundRecipientNotSet));
    sale.set_fund_recipient(1, 5).unwrap();
    assert_eq!(sale.get_fund_recipient(), Ok(5));
}

#[test]
fn current_timestamp_echoes_the_ledger() {
    assert_eq!(TokenSale::get_current_timestamp(&led(123, 4)), 123);
}
