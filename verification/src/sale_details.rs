//! Sale parameter and fund recipient accessors.
//!
//! The parameter record is validated wholesale on write. Reading returns the
//! stored record even after the sale's end time has elapsed — callers that
//! require an ongoing sale check the end time themselves — and the all-zero
//! default while nothing is stored.

use vstd::prelude::*;
use crate::contract::TokenSale;
use crate::storage_types::{SalesParameter, Error};

verus! {

/// The invariants a parameter record must satisfy at write time, against the
/// current ledger timestamp.
pub open spec fn params_valid(
    now: u64,
    start_time: u64,
    end_time: u64,
    soft_cap: u64,
    hard_cap: u64,
    min_buy: u64,
    max_buy: u64,
    tge_time: u64,
) -> bool {
    &&& end_time > now
    &&& end_time >= start_time
    &&& soft_cap > 0
    &&& hard_cap >= soft_cap
    &&& max_buy >= min_buy
    &&& tge_time >= end_time
}

/// The stored parameter record, or the all-zero default when none is stored.
pub fn read_sales_parameters(sale: &TokenSale) -> (r: SalesParameter)
    ensures
        r == sale.spec_params(),
{
    match sale.sale_parameters {
        Some(p) => p,
        None => SalesParameter {
            start_time: 0,
            end_time: 0,
            soft_cap: 0,
            hard_cap: 0,
            min_buy: 0,
            max_buy: 0,
            tge_time: 0,
        },
    }
}

/// Validate and store a parameter record, replacing any previous one.
pub fn write_sales_parameters(
    sale: &mut TokenSale,
    now: u64,
    start_time: u64,
    end_time: u64,
    soft_cap: u64,
    hard_cap: u64,
    min_buy: u64,
    max_buy: u64,
    tge_time: u64,
) -> (r: Result<(), Error>)
    ensures
        params_valid(now, start_time, end_time, soft_cap, hard_cap, min_buy, max_buy, tge_time)
            ==> r == Ok::<(), Error>(())
                && *final(sale) == (TokenSale {
                    sale_parameters: Some(SalesParameter {
                        start_time, end_time, soft_cap, hard_cap, min_buy, max_buy, tge_time,
                    }),
                    ..*old(sale)
                }),
        !params_valid(now, start_time, end_time, soft_cap, hard_cap, min_buy, max_buy, tge_time)
            ==> r == Err::<(), Error>(Error::InvalidParameters) && *final(sale) == *old(sale),
{
    if end_time <= now
        || end_time < start_time
        || soft_cap == 0
        || hard_cap < soft_cap
        || max_buy < min_buy
        || tge_time < end_time
    {
        return Err(Error::InvalidParameters);
    }
    sale.sale_parameters = Some(SalesParameter {
        start_time,
        end_time,
        soft_cap,
        hard_cap,
        min_buy,
        max_buy,
        tge_time,
    });
    Ok(())
}

/// Store the fund recipient.
pub fn write_fund_recipient(sale: &mut TokenSale, recipient: u64)
    ensures
        *final(sale) == (TokenSale { fund_recipient: Some(recipient), ..*old(sale) }),
{
    sale.fund_recipient = Some(recipient);
}

/// The stored fund recipient, or `FundRecipientNotSet`.
pub fn read_fund_recipient(sale: &TokenSale) -> (r: Result<u64, Error>)
    ensures
        match sale.fund_recipient {
            Some(a) => r == Ok::<u64, Error>(a),
            None => r == Err::<u64, Error>(Error::FundRecipientNotSet),
        },
{
    match sale.fund_recipient {
        Some(a) => Ok(a),
        None => Err(Error::FundRecipientNotSet),
    }
}

} // verus!
