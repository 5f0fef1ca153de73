//! The leased tier of the durable store: absence-defaults, expiry at the
//! lifetime bound, and renew-on-access.

use token_sale::contract::TokenSale;
use token_sale::storage::{LeasedCell, LeasedMap};
use token_sale::storage_types::{Ledger, BUMP_AMOUNT, DAY_IN_LEDGERS, LIFETIME_THRESHOLD};

fn led(timestamp: u64, sequence: u32) -> Ledger {
    Ledger { timestamp, sequence }
}

#[test]
fn lease_constants_relate_as_documented() {
    assert_eq!(DAY_IN_LEDGERS, 17280);
    assert_eq!(BUMP_AMOUNT, 30 * DAY_IN_LEDGERS);
    assert_eq!(LIFETIME_THRESHOLD, BUMP_AMOUNT - DAY_IN_LEDGERS);
}

#[test]
fn absent_entries_read_as_zero() {
    let map = LeasedMap::new();
    assert_eq!(map.peek(1, 2, 0), 0);
    let cell = LeasedCell::new();
    assert_eq!(cell.peek(0), 0);
}

#[test]
fn entries_expire_at_the_lease_bound() {
    let mut map = LeasedMap::new();
    map.set(1, 2, 77, 0);
    // live through the whole renewal window, gone one step past it
    assert_eq!(map.peek(1, 2, BUMP_AMOUNT), 77);
    assert_eq!(map.peek(1, 2, BUMP_AMOUNT + 1), 0);
    let mut cell = LeasedCell::new();
    cell.set(55, 0);
    assert_eq!(cell.peek(BUMP_AMOUNT), 55);
    assert_eq!(cell.peek(BUMP_AMOUNT + 1), 0);
}

#[test]
fn reads_renew_the_lease() {
    let mut map = LeasedMap::new();
    map.set(1, 2, 77, 0);
    // a renewing read inside the window pushes the bound forward
    assert_eq!(map.get(1, 2, 2 * DAY_IN_LEDGERS), 77);
    assert_eq!(map.peek(1, 2, 2 * DAY_IN_LEDGERS + BUMP_AMOUNT), 77);
    // an expired entry is not revived by reading it
    let mut stale = LeasedMap::new();
    stale.set(1, 2, 77, 0);
    assert_eq!(stale.get(1, 2, BUMP_AMOUNT + 1), 0);
    assert_eq!(stale.peek(1, 2, BUMP_AMOUNT + 2), 0);
}

#[test]
fn lapsed_accounting_entries_revert_to_their_absence_default() {
    let mut sale = TokenSale::new();
    sale.initialize(1).unwrap();
    sale.set_sale_token(1, 99).unwrap();
    sale.set_payment_token(1, 7).unwrap();
    sale.set_sale_parameters(&led(0, 0), 1, 0, 1000, 500, 1000, 10, 200, 1000)
        .unwrap();
    sale.set_swap_rate(&led(0, 0), 1, 7, 2).unwrap();
    sale.contribute(&led(10, 1), 42, 7, 50).unwrap();
    let live = led(10, 1 + LIFETIME_THRESHOLD);
    assert_eq!(sale.get_participant_contribution(&live, 42, 7), 50);
    // the getter renewed the lease, so the balance outlives the first lease bound
    let renewed = led(10, 1 + LIFETIME_THRESHOLD + BUMP_AMOUNT);
    assert_eq!(sale.get_participant_contribution(&renewed, 42, 7), 50);
    // a fresh identical sale left untouched past the bound reads as absent
    let mut idle = TokenSale::new();
    idle.initialize(1).unwrap();
    idle.set_sale_token(1, 99).unwrap();
    idle.set_payment_token(1, 7).unwrap();
    idle.set_sale_parameters(&led(0, 0), 1, 0, 1000, 500, 1000, 10, 200, 1000)
        .unwrap();
    idle.set_swap_rate(&led(0, 0), 1, 7, 2).unwrap();
    idle.contribute(&led(10, 1), 42, 7, 50).unwrap();
    let lapsed = led(10, 2 + BUMP_AMOUNT);
    assert_eq!(idle.get_participant_contribution(&lapsed, 42, 7), 0);
    // identity fields do not expire
    assert_eq!(idle.get_sale_token(), Ok(99));
    assert_eq!(idle.get_sales_parameters().soft_cap, 500);
}

#[test]
fn rate_reads_keep_active_assets_alive() {
    let mut sale = TokenSale::new();
    sale.initialize(1).unwrap();
    sale.set_payment_token(1, 7).unwrap();
    sale.set_swap_rate(&led(0, 0), 1, 7, 2).unwrap();
    // listing the options renews the rate lease
    assert_eq!(sale.get_payment_options(&led(0, LIFETIME_THRESHOLD)), vec![7]);
    assert_eq!(
        sale.get_payment_options(&led(0, LIFETIME_THRESHOLD + BUMP_AMOUNT)),
        vec![7]
    );
    // without renewals the rate lapses and the asset deactivates
    let mut idle = TokenSale::new();
    idle.initialize(1).unwrap();
    idle.set_payment_token(1, 7).unwrap();
    idle.set_swap_rate(&led(0, 0), 1, 7, 2).unwrap();
    assert_eq!(idle.get_payment_options(&led(0, BUMP_AMOUNT + 1)), vec![]);
    // support itself is an identity field and never expires
    assert_eq!(idle.get_supported_tokens(), vec![7]);
}
