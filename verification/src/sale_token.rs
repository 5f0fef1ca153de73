//! The sale asset accessor and the custody adapter.
//!
//! `take_token` and `send_token` build the escrow instructions that move
//! assets into and out of contract custody. The host executes every
//! instruction of an invocation atomically with the ledger update that
//! produced it; a failed transfer aborts the whole invocation.

use vstd::prelude::*;
use crate::contract::TokenSale;
use crate::storage_types::{Error, Escrow, EscrowDirection};

verus! {

/// The configured sale asset, or `SaleTokenNotSet`.
pub fn read_token(sale: &TokenSale) -> (r: Result<u64, Error>)
    ensures
        match sale.sale_token {
            Some(t) => r == Ok::<u64, Error>(t),
            None => r == Err::<u64, Error>(Error::SaleTokenNotSet),
        },
{
    match sale.sale_token {
        Some(t) => Ok(t),
        None => Err(Error::SaleTokenNotSet),
    }
}

/// Store the sale asset.
pub fn write_token(sale: &mut TokenSale, token_address: u64)
    ensures
        *final(sale) == (TokenSale { sale_token: Some(token_address), ..*old(sale) }),
{
    sale.sale_token = Some(token_address);
}

/// Escrow-in: move `transfer_amount` of `token_address` from `from` into
/// contract custody.
pub fn take_token(token_address: u64, from: u64, transfer_amount: i128) -> (r: Escrow)
    ensures
        r == (Escrow {
            direction: EscrowDirection::IntoCustody,
            token: token_address,
            counterparty: from,
            amount: transfer_amount,
        }),
{
    Escrow {
        direction: EscrowDirection::IntoCustody,
        token: token_address,
        counterparty: from,
        amount: transfer_amount,
    }
}

/// Escrow-out: move `transfer_amount` of `token_address` from contract
/// custody to `to`.
pub fn send_token(token_address: u64, to: u64, transfer_amount: i128) -> (r: Escrow)
    ensures
        r == (Escrow {
            direction: EscrowDirection::OutOfCustody,
            token: token_address,
            counterparty: to,
            amount: transfer_amount,
        }),
{
    Escrow {
        direction: EscrowDirection::OutOfCustody,
        token: token_address,
        counterparty: to,
        amount: transfer_amount,
    }
}

} // verus!
