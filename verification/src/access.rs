//! Administrator accessors. The administrator is a non-expiring identity
//! field: set once at initialization, never reassigned.

use vstd::prelude::*;
use crate::contract::TokenSale;
use crate::storage_types::Error;

verus! {

/// Whether an administrator has been stored.
pub fn has_administrator(sale: &TokenSale) -> (r: bool)
    ensures
        r == sale.admin.is_some(),
{
    sale.admin.is_some()
}

/// The stored administrator, or `NotInitialized` when none was ever set.
pub fn read_administrator(sale: &TokenSale) -> (r: Result<u64, Error>)
    ensures
        match sale.admin {
            Some(a) => r == Ok::<u64, Error>(a),
            None => r == Err::<u64, Error>(Error::NotInitialized),
        },
{
    match sale.admin {
        Some(a) => Ok(a),
        None => Err(Error::NotInitialized),
    }
}

/// Store the administrator.
pub fn write_administrator(sale: &mut TokenSale, admin: u64)
    ensures
        *final(sale) == (TokenSale { admin: Some(admin), ..*old(sale) }),
{
    sale.admin = Some(admin);
}

} // verus!
