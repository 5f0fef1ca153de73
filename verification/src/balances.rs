//! The ledger (balances) engine: per-participant and aggregate contribution
//! and purchase accounting over leased storage entries.
//!
//! Additions never fail on their own — callers pre-validate amount bounds —
//! except for `update_participant_purchase_amount`, which enforces the
//! per-participant purchase cap and counts first purchases. The `zero_*`
//! functions return and clear a balance; they are the only destruction
//! semantics of the ledger.

use vstd::prelude::*;
use crate::contract::TokenSale;
use crate::sale_details::read_sales_parameters;
use crate::storage_types::Error;
use crate::storage::{values_preserved, stored_amount, stored_sum, stored_sum_for, lookup};

verus! {

/// Read a participant's contribution in one asset, renewing its lease.
pub fn read_participant_contribution_amount(
    sale: &mut TokenSale,
    participant: u64,
    payment_token: u64,
    seq: u32,
) -> (r: i128)
    ensures
        r == old(sale).spec_contribution(participant, payment_token, seq),
        values_preserved(old(sale).contributions.entries@, final(sale).contributions.entries@, seq),
        *final(sale) == (TokenSale { contributions: final(sale).contributions, ..*old(sale) }),
{
    sale.contributions.get(participant, payment_token, seq)
}

/// Add `contribution` to a participant's balance in one asset and to that
/// asset's aggregate total. Never fails on its own: callers pre-validate the
/// amount against the signed 128-bit range.
pub fn update_make_contribution_amount(
    sale: &mut TokenSale,
    participant: u64,
    payment_token: u64,
    contribution: i128,
    seq: u32,
)
    requires
        old(sale).spec_contribution(participant, payment_token, seq) + contribution
            <= i128::MAX,
        old(sale).spec_contribution(participant, payment_token, seq) + contribution
            >= i128::MIN,
        old(sale).spec_total_contribution(payment_token, seq) + contribution <= i128::MAX,
        old(sale).spec_total_contribution(payment_token, seq) + contribution >= i128::MIN,
    ensures
        final(sale).spec_contribution(participant, payment_token, seq)
            == old(sale).spec_contribution(participant, payment_token, seq) + contribution,
        stored_amount(final(sale).contributions.entries@, participant, payment_token)
            == old(sale).spec_contribution(participant, payment_token, seq) + contribution,
        forall|a2: u64, b2: u64| !(a2 == participant && b2 == payment_token)
            ==> lookup(final(sale).contributions.entries@, a2, b2)
                == lookup(old(sale).contributions.entries@, a2, b2),
        stored_sum_for(final(sale).contributions.entries@, participant)
            == stored_sum_for(old(sale).contributions.entries@, participant)
                - stored_amount(old(sale).contributions.entries@, participant, payment_token)
                + old(sale).spec_contribution(participant, payment_token, seq) + contribution,
        forall|a2: u64| a2 != participant
            ==> stored_sum_for(final(sale).contributions.entries@, a2)
                == stored_sum_for(old(sale).contributions.entries@, a2),
        final(sale).spec_total_contribution(payment_token, seq)
            == old(sale).spec_total_contribution(payment_token, seq) + contribution,
        stored_amount(final(sale).total_contributions.entries@, payment_token, 0)
            == old(sale).spec_total_contribution(payment_token, seq) + contribution,
        forall|a2: u64, b2: u64| !(a2 == payment_token && b2 == 0)
            ==> lookup(final(sale).total_contributions.entries@, a2, b2)
                == lookup(old(sale).total_contributions.entries@, a2, b2),
        *final(sale) == (TokenSale {
            contributions: final(sale).contributions,
            total_contributions: final(sale).total_contributions,
            ..*old(sale)
        }),
{
    let balance = sale.contributions.peek(participant, payment_token, seq);
    sale.contributions.set(participant, payment_token, balance + contribution, seq);
    write_total_contribution(sale, payment_token, contribution, seq);
}

/// Read a participant's purchased sale-asset amount, renewing its lease.
pub fn read_participant_purchase_amount(sale: &mut TokenSale, addr: u64, seq: u32) -> (r: i128)
    ensures
        r == old(sale).spec_purchased(addr, seq),
        values_preserved(old(sale).purchases.entries@, final(sale).purchases.entries@, seq),
        *final(sale) == (TokenSale { purchases: final(sale).purchases, ..*old(sale) }),
{
    sale.purchases.get(addr, 0, seq)
}

/// Why `update_participant_purchase_amount` rejects a purchase: the
/// cumulative purchased amount would exceed the configured maximum buy, or
/// the participant count cannot grow further.
pub open spec fn record_purchase_check(
    sale: TokenSale,
    addr: u64,
    amount_purchased: i128,
    seq: u32,
) -> Option<Error> {
    if sale.spec_purchased(addr, seq) + amount_purchased > sale.spec_params().max_buy {
        Some(Error::MaxBuyExceeded)
    } else if sale.spec_purchased(addr, seq) == 0 && amount_purchased > 0
        && sale.spec_participants_count(seq) == i128::MAX {
        Some(Error::Overflow)
    } else {
        None
    }
}

/// Add `amount_purchased` to a participant's purchased total. Fails — with
/// nothing changed — if the new total would exceed the maximum buy. On a
/// first purchase that moves the total from zero to nonzero, the participant
/// count grows by one.
pub fn update_participant_purchase_amount(
    sale: &mut TokenSale,
    addr: u64,
    amount_purchased: i128,
    seq: u32,
) -> (r: Result<(), Error>)
    requires
        amount_purchased >= 0,
    ensures
        match record_purchase_check(*old(sale), addr, amount_purchased, seq) {
            Some(e) => r == Err::<(), Error>(e) && *final(sale) == *old(sale),
            None => {
                &&& r == Ok::<(), Error>(())
                &&& final(sale).spec_purchased(addr, seq)
                    == old(sale).spec_purchased(addr, seq) + amount_purchased
                &&& final(sale).spec_purchased(addr, seq) <= old(sale).spec_params().max_buy
                &&& stored_amount(final(sale).purchases.entries@, addr, 0)
                    == old(sale).spec_purchased(addr, seq) + amount_purchased
                &&& forall|a2: u64, b2: u64| !(a2 == addr && b2 == 0)
                    ==> lookup(final(sale).purchases.entries@, a2, b2)
                        == lookup(old(sale).purchases.entries@, a2, b2)
                &&& stored_sum(final(sale).purchases.entries@)
                    == stored_sum(old(sale).purchases.entries@)
                        - stored_amount(old(sale).purchases.entries@, addr, 0)
                        + old(sale).spec_purchased(addr, seq) + amount_purchased
                &&& final(sale).spec_participants_count(seq)
                    == old(sale).spec_participants_count(seq)
                        + (if old(sale).spec_purchased(addr, seq) == 0 && amount_purchased > 0
                            { 1int } else { 0int })
                &&& *final(sale) == (TokenSale {
                    purchases: final(sale).purchases,
                    participants_count: final(sale).participants_count,
                    ..*old(sale)
                })
            }
        },
{
    let pre_purchase_amount = sale.purchases.peek(addr, 0, seq);
    let max_buy: i128 = read_sales_parameters(sale).max_buy as i128;
    if pre_purchase_amount > max_buy - amount_purchased {
        return Err(Error::MaxBuyExceeded);
    }
    let total_purchased = pre_purchase_amount + amount_purchased;
    if pre_purchase_amount == 0 && amount_purchased > 0 {
        let count = sale.participants_count.peek(seq);
        if count == i128::MAX {
            return Err(Error::Overflow);
        }
        sale.purchases.set(addr, 0, total_purchased, seq);
        sale.participants_count.set(count + 1, seq);
    } else {
        sale.purchases.set(addr, 0, total_purchased, seq);
    }
    Ok(())
}

/// Return and clear a participant's purchased balance; used by claims.
pub fn zero_purchase(sale: &mut TokenSale, addr: u64, seq: u32) -> (r: i128)
    ensures
        r == old(sale).spec_purchased(addr, seq),
        final(sale).spec_purchased(addr, seq) == 0,
        stored_amount(final(sale).purchases.entries@, addr, 0) == 0,
        forall|a2: u64, b2: u64| !(a2 == addr && b2 == 0)
            ==> lookup(final(sale).purchases.entries@, a2, b2)
                == lookup(old(sale).purchases.entries@, a2, b2),
        stored_sum(final(sale).purchases.entries@)
            == stored_sum(old(sale).purchases.entries@)
                - stored_amount(old(sale).purchases.entries@, addr, 0),
        *final(sale) == (TokenSale { purchases: final(sale).purchases, ..*old(sale) }),
{
    let r = sale.purchases.peek(addr, 0, seq);
    sale.purchases.set(addr, 0, 0, seq);
    r
}

/// Return and clear a participant's contribution in one asset; used by
/// refunds.
pub fn zero_contribution(sale: &mut TokenSale, participant: u64, payment_token: u64, seq: u32)
    -> (r: i128)
    ensures
        r == old(sale).spec_contribution(participant, payment_token, seq),
        final(sale).spec_contribution(participant, payment_token, seq) == 0,
        stored_amount(final(sale).contributions.entries@, participant, payment_token) == 0,
        forall|a2: u64, b2: u64| !(a2 == participant && b2 == payment_token)
            ==> lookup(final(sale).contributions.entries@, a2, b2)
                == lookup(old(sale).contributions.entries@, a2, b2),
        stored_sum_for(final(sale).contributions.entries@, participant)
            == stored_sum_for(old(sale).contributions.entries@, participant)
                - stored_amount(old(sale).contributions.entries@, participant, payment_token),
        forall|a2: u64| a2 != participant
            ==> stored_sum_for(final(sale).contributions.entries@, a2)
                == stored_sum_for(old(sale).contributions.entries@, a2),
        *final(sale) == (TokenSale { contributions: final(sale).contributions, ..*old(sale) }),
{
    let r = sale.contributions.peek(participant, payment_token, seq);
    sale.contributions.set(participant, payment_token, 0, seq);
    r
}

/// Read the aggregate contribution in one asset, renewing its lease.
pub fn read_total_contribution(sale: &mut TokenSale, token_address: u64, seq: u32) -> (r: i128)
    ensures
        r == old(sale).spec_total_contribution(token_address, seq),
        values_preserved(
            old(sale).total_contributions.entries@,
            final(sale).total_contributions.entries@,
            seq,
        ),
        *final(sale) == (TokenSale {
            total_contributions: final(sale).total_contributions,
            ..*old(sale)
        }),
{
    sale.total_contributions.get(token_address, 0, seq)
}

/// Add `contribution` to the aggregate contribution in one asset. Callers
/// pre-validate the amount against the signed 128-bit range.
pub fn write_total_contribution(
    sale: &mut TokenSale,
    token_address: u64,
    contribution: i128,
    seq: u32,
)
    requires
        old(sale).spec_total_contribution(token_address, seq) + contribution <= i128::MAX,
        old(sale).spec_total_contribution(token_address, seq) + contribution >= i128::MIN,
    ensures
        final(sale).spec_total_contribution(token_address, seq)
            == old(sale).spec_total_contribution(token_address, seq) + contribution,
        stored_amount(final(sale).total_contributions.entries@, token_address, 0)
            == old(sale).spec_total_contribution(token_address, seq) + contribution,
        forall|a2: u64, b2: u64| !(a2 == token_address && b2 == 0)
            ==> lookup(final(sale).total_contributions.entries@, a2, b2)
                == lookup(old(sale).total_contributions.entries@, a2, b2),
        *final(sale) == (TokenSale {
            total_contributions: final(sale).total_contributions,
            ..*old(sale)
        }),
{
    let cur_total_contribution = sale.total_contributions.peek(token_address, 0, seq);
    sale.total_contributions.set(
        token_address,
        0,
        cur_total_contribution + contribution,
        seq,
    );
}

/// Return and clear the aggregate contribution in one asset; used by
/// withdrawal.
pub fn zero_total_contribution(sale: &mut TokenSale, token_address: u64, seq: u32) -> (r: i128)
    ensures
        r == old(sale).spec_total_contribution(token_address, seq),
        final(sale).spec_total_contribution(token_address, seq) == 0,
        stored_amount(final(sale).total_contributions.entries@, token_address, 0) == 0,
        forall|a2: u64, b2: u64| !(a2 == token_address && b2 == 0)
            ==> lookup(final(sale).total_contributions.entries@, a2, b2)
                == lookup(old(sale).total_contributions.entries@, a2, b2),
        *final(sale) == (TokenSale {
            total_contributions: final(sale).total_contributions,
            ..*old(sale)
        }),
{
    let r = sale.total_contributions.peek(token_address, 0, seq);
    sale.total_contributions.set(token_address, 0, 0, seq);
    r
}

/// Read the running sold total, renewing its lease.
pub fn read_total_sold(sale: &mut TokenSale, seq: u32) -> (r: i128)
    ensures
        r == old(sale).spec_total_sold(seq),
        final(sale).total_sold.amount == old(sale).total_sold.amount,
        final(sale).spec_total_sold(seq) == old(sale).spec_total_sold(seq),
        final(sale).total_sold.live_until >= old(sale).total_sold.live_until,
        *final(sale) == (TokenSale { total_sold: final(sale).total_sold, ..*old(sale) }),
{
    sale.total_sold.get(seq)
}

/// Add `amount_sold` to the running sold total: a monotonic increment, never
/// a decrement. Callers pre-validate the amount against the signed 128-bit
/// range.
pub fn write_total_sold(sale: &mut TokenSale, amount_sold: i128, seq: u32)
    requires
        amount_sold >= 0,
        old(sale).spec_total_sold(seq) + amount_sold <= i128::MAX,
    ensures
        final(sale).spec_total_sold(seq)
            == old(sale).spec_total_sold(seq) + amount_sold,
        final(sale).spec_total_sold(seq) >= old(sale).spec_total_sold(seq),
        final(sale).total_sold.amount as int
            == old(sale).spec_total_sold(seq) + amount_sold,
        *final(sale) == (TokenSale { total_sold: final(sale).total_sold, ..*old(sale) }),
{
    let cur_total_sold = sale.total_sold.peek(seq);
    sale.total_sold.set(cur_total_sold + amount_sold, seq);
}

/// Read the participant count, renewing its lease.
pub fn read_participants_count(sale: &mut TokenSale, seq: u32) -> (r: i128)
    ensures
        r == old(sale).spec_participants_count(seq),
        final(sale).spec_participants_count(seq) == old(sale).spec_participants_count(seq),
        final(sale).participants_count.amount == old(sale).participants_count.amount,
        *final(sale) == (TokenSale {
            participants_count: final(sale).participants_count,
            ..*old(sale)
        }),
{
    sale.participants_count.get(seq)
}

} // verus!
