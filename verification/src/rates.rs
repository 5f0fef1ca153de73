//! Exchange rate accessors. A rate is a leased entry: the integer multiplier
//! converting a contributed payment-asset amount into sale-asset units. An
//! unset or lapsed rate reads as zero, which also deactivates the asset for
//! refund and withdrawal iteration.

use vstd::prelude::*;
use crate::contract::TokenSale;
use crate::storage::values_preserved;

verus! {

/// Read the rate of `payment_token`, renewing its lease.
pub fn read_sale_rate(sale: &mut TokenSale, payment_token: u64, seq: u32) -> (r: u64)
    ensures
        0 <= old(sale).spec_rate(payment_token, seq) <= u64::MAX as i128
            ==> r as i128 == old(sale).spec_rate(payment_token, seq),
        !(0 <= old(sale).spec_rate(payment_token, seq) <= u64::MAX as i128) ==> r == 0,
        values_preserved(old(sale).rates.entries@, final(sale).rates.entries@, seq),
        *final(sale) == (TokenSale { rates: final(sale).rates, ..*old(sale) }),
{
    let rate = sale.rates.get(payment_token, 0, seq);
    if 0 <= rate && rate <= u64::MAX as i128 {
        rate as u64
    } else {
        0
    }
}

/// Store the rate of `payment_token` and renew its lease. A rate of zero
/// deactivates the asset without removing it from the registry.
pub fn write_sales_rate(sale: &mut TokenSale, payment_token: u64, rate: u64, seq: u32)
    ensures
        final(sale).spec_rate(payment_token, seq) == rate as i128,
        forall|t: u64| t != payment_token
            ==> final(sale).spec_rate(t, seq) == old(sale).spec_rate(t, seq),
        *final(sale) == (TokenSale { rates: final(sale).rates, ..*old(sale) }),
{
    sale.rates.set(payment_token, 0, rate as i128, seq);
}

} // verus!
