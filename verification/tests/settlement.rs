//! Claim, refund and withdrawal: outcome gating at the soft cap boundary,
//! idempotence, and multi-asset settlement.

use token_sale::contract::TokenSale;
use token_sale::storage_types::{Error, Escrow, EscrowDirection, Ledger};

fn led(timestamp: u64, sequence: u32) -> Ledger {
    Ledger { timestamp, sequence }
}

/// Parameters {start 0, end 1000, soft 500, hard 1000, min 10, max 500,
/// tge 2000}, assets 7 (rate 2) and 8 (rate 1), recipient 5.
fn configured_sale() -> TokenSale {
    let mut sale = TokenSale::new();
    sale.initialize(1).unwrap();
    sale.set_sale_token(1, 99).unwrap();
    sale.set_payment_token(1, 7).unwrap();
    sale.set_payment_token(1, 8).unwrap();
    sale.set_sale_parameters(&led(0, 0), 1, 0, 1000, 500, 1000, 10, 500, 2000)
        .unwrap();
    sale.set_swap_rate(&led(0, 0), 1, 7, 2).unwrap();
    sale.set_swap_rate(&led(0, 0), 1, 8, 1).unwrap();
    sale.set_fund_recipient(1, 5).unwrap();
    sale
}

#[test]
fn claim_requires_success_tge_and_a_balance() {
    let mut sale = configured_sale();
    // 100 at rate 2 purchases 200: sold 200 < soft cap 500
    sale.contribute(&led(10, 1), 42, 7, 100).unwrap();
    assert_eq!(
        sale.claim_purchased_tokens(&led(2000, 1), 42),
        Err(Error::SaleNotSuccessful)
    );
    // a second participant brings the total to exactly the soft cap
    sale.contribute(&led(10, 1), 43, 8, 300).unwrap();
    assert_eq!(
        sale.claim_purchased_tokens(&led(1999, 1), 42),
        Err(Error::BeforeTge)
    );
    assert_eq!(
        sale.claim_purchased_tokens(&led(2000, 1), 44),
        Err(Error::NothingToClaim)
    );
    let escrow = sale.claim_purchased_tokens(&led(2000, 1), 42).unwrap();
    assert_eq!(
        escrow,
        Escrow {
            direction: EscrowDirection::OutOfCustody,
            token: 99,
            counterparty: 42,
            amount: 200,
        }
    );
    assert_eq!(sale.get_participant_total_purchase(&led(2000, 1), 42), 0);
    // claiming twice in a row: the second call finds nothing to claim
    assert_eq!(
        sale.claim_purchased_tokens(&led(2000, 1), 42),
        Err(Error::NothingToClaim)
    );
    // the sold total is untouched by claims
    assert_eq!(sale.get_total_sold(&led(2000, 1)), 500);
}

#[test]
fn refund_requires_failure_and_the_end_of_the_sale() {
    let mut sale = configured_sale();
    sale.contribute(&led(10, 1), 42, 7, 100).unwrap();
    sale.contribute(&led(10, 1), 42, 8, 50).unwrap();
    // sold 250 < soft cap 500: the sale fails, but not before end_time
    assert_eq!(sale.claim_refund(&led(999, 1), 42), Err(Error::SaleNotOver));
    let transfers = sale.claim_refund(&led(1000, 1), 42).unwrap();
    assert_eq!(
        transfers,
        vec![
            Escrow {
                direction: EscrowDirection::OutOfCustody,
                token: 7,
                counterparty: 42,
                amount: 100,
            },
            Escrow {
                direction: EscrowDirection::OutOfCustody,
                token: 8,
                counterparty: 42,
                amount: 50,
            },
        ]
    );
    assert_eq!(sale.get_participant_contribution(&led(1000, 1), 42, 7), 0);
    assert_eq!(sale.get_participant_contribution(&led(1000, 1), 42, 8), 0);
    // refunding twice in a row: the second call finds nothing to claim
    assert_eq!(
        sale.claim_refund(&led(1000, 1), 42),
        Err(Error::NothingToClaim)
    );
}

#[test]
fn refund_skips_deactivated_assets() {
    let mut sale = configured_sale();
    sale.contribute(&led(10, 1), 42, 7, 100).unwrap();
    sale.contribute(&led(10, 1), 42, 8, 50).unwrap();
    // deactivate asset 7: its balance is skipped during bulk settlement
    sale.set_swap_rate(&led(10, 1), 1, 7, 0).unwrap();
    let transfers = sale.claim_refund(&led(1000, 1), 42).unwrap();
    assert_eq!(
        transfers,
        vec![Escrow {
            direction: EscrowDirection::OutOfCustody,
            token: 8,
            counterparty: 42,
            amount: 50,
        }]
    );
    assert_eq!(sale.get_participant_contribution(&led(1000, 1), 42, 7), 100);
}

#[test]
fn outcome_gates_are_exclusive_at_the_soft_cap_boundary() {
    // the sold total reaches exactly the soft cap at end_time: refunds must
    // abort for every participant and withdrawal must succeed
    let mut sale = configured_sale();
    sale.contribute(&led(10, 1), 42, 7, 100).unwrap();
    sale.contribute(&led(1000, 1), 43, 8, 300).unwrap();
    assert_eq!(sale.get_total_sold(&led(1000, 1)), 500);
    assert_eq!(
        sale.claim_refund(&led(1000, 1), 42),
        Err(Error::SaleSuccessful)
    );
    assert_eq!(
        sale.claim_refund(&led(1000, 1), 43),
        Err(Error::SaleSuccessful)
    );
    let transfers = sale.withdraw_raised_funds(&led(1000, 1), 5).unwrap();
    assert_eq!(
        transfers,
        vec![
            Escrow {
                direction: EscrowDirection::OutOfCustody,
                token: 7,
                counterparty: 5,
                amount: 100,
            },
            Escrow {
                direction: EscrowDirection::OutOfCustody,
                token: 8,
                counterparty: 5,
                amount: 300,
            },
        ]
    );
    assert_eq!(sale.get_total_contribution(&led(1000, 1), 7), 0);
    assert_eq!(sale.get_total_contribution(&led(1000, 1), 8), 0);
    // a repeated withdrawal finds nothing left to move
    assert_eq!(sale.withdraw_raised_funds(&led(1000, 1), 5), Ok(vec![]));
}

#[test]
fn withdrawal_is_gated_on_recipient_time_and_outcome() {
    let mut sale = configured_sale();
    sale.contribute(&led(10, 1), 42, 7, 100).unwrap();
    assert_eq!(
        sale.withdraw_raised_funds(&led(1000, 1), 4),
        Err(Error::Unauthorized)
    );
    assert_eq!(
        sale.withdraw_raised_funds(&led(999, 1), 5),
        Err(Error::SaleNotOver)
    );
    // sold 200 < soft cap 500
    assert_eq!(
        sale.withdraw_raised_funds(&led(1000, 1), 5),
        Err(Error::SaleNotSuccessful)
    );
    let mut unconfigured = TokenSale::new();
    assert_eq!(
        unconfigured.withdraw_raised_funds(&led(0, 0), 5),
        Err(Error::FundRecipientNotSet)
    );
}

#[test]
fn failed_sale_contributions_come_back_in_full() {
    // the sum refunded per participant equals the sum contributed
    let mut sale = configured_sale();
    let t = led(10, 1);
    sale.contribute(&t, 42, 7, 60).unwrap();
    sale.contribute(&t, 42, 7, 40).unwrap();
    sale.contribute(&t, 42, 8, 30).unwrap();
    let transfers = sale.claim_refund(&led(1000, 1), 42).unwrap();
    let refunded: i128 = transfers.iter().map(|e| e.amount).sum();
    assert_eq!(refunded, 60 + 40 + 30);
}
