//! Shared storage types: the sale parameter record, ledger context, lease
//! constants, escrow instructions and the error type of the contract.

use vstd::prelude::*;

verus! {

/// Number of ledger sequence steps that elapse in one day.
pub const DAY_IN_LEDGERS: u32 = 17280;
/// A lease renewal extends a leased entry's life to this many ledgers ahead.
pub const BUMP_AMOUNT: u32 = 30 * DAY_IN_LEDGERS;
/// An entry whose remaining life falls below this threshold is renewed on access.
pub const LIFETIME_THRESHOLD: u32 = BUMP_AMOUNT - DAY_IN_LEDGERS;

/// The sale's timing and cap configuration. All cap and buy fields are
/// expressed in sale-asset units; all time fields share the ledger clock.
#[derive(Clone, Copy, PartialEq, Eq, Structural, Debug)]
pub struct SalesParameter {
    pub start_time: u64,
    pub end_time: u64,
    pub soft_cap: u64,
    pub hard_cap: u64,
    pub min_buy: u64,
    pub max_buy: u64,
    pub tge_time: u64,
}

/// The ledger context of one invocation: the host's monotonic timestamp and
/// the current ledger sequence number used for lease accounting.
#[derive(Clone, Copy, PartialEq, Eq, Structural, Debug)]
pub struct Ledger {
    pub timestamp: u64,
    pub sequence: u32,
}

/// Direction of an escrow transfer relative to contract custody.
#[derive(Clone, Copy, PartialEq, Eq, Structural, Debug)]
pub enum EscrowDirection {
    /// Move assets from the counterparty into contract custody.
    IntoCustody,
    /// Move assets from contract custody to the counterparty.
    OutOfCustody,
}

/// One escrow transfer instruction. The host executes every instruction of an
/// invocation atomically with the ledger update that produced it.
#[derive(Clone, Copy, PartialEq, Eq, Structural, Debug)]
pub struct Escrow {
    pub direction: EscrowDirection,
    pub token: u64,
    pub counterparty: u64,
    pub amount: i128,
}

/// Sum of the amounts of a sequence of escrow instructions.
pub open spec fn escrow_sum(s: Seq<Escrow>) -> int
    decreases s.len(),
{
    if s.len() == 0 {
        0
    } else {
        escrow_sum(s.drop_last()) + s.last().amount
    }
}

/// The abort reason of a failed invocation. No partial effects persist when
/// one of these is returned.
#[derive(Clone, Copy, PartialEq, Eq, Structural, Debug)]
pub enum Error {
    /// An administrator is already stored.
    AlreadyInitialized,
    /// No administrator has been stored yet.
    NotInitialized,
    /// The caller is not the address the action requires.
    Unauthorized,
    /// The sale asset has not been configured.
    SaleTokenNotSet,
    /// The fund recipient has not been configured.
    FundRecipientNotSet,
    /// The payment asset is not in the registry.
    UnsupportedPaymentToken,
    /// A sale parameter record violates its invariants.
    InvalidParameters,
    /// The contributed amount is negative.
    InvalidAmount,
    /// The sale's end time has passed.
    SaleOver,
    /// The sale's end time has not passed yet.
    SaleNotOver,
    /// The converted purchase amount is below the minimum buy.
    BelowMinBuy,
    /// The converted purchase amount is above the maximum buy.
    AboveMaxBuy,
    /// The cumulative purchased amount would exceed the maximum buy.
    MaxBuyExceeded,
    /// The soft cap was not reached.
    SaleNotSuccessful,
    /// The soft cap was reached; contributions are no longer refundable.
    SaleSuccessful,
    /// The token generation event time has not been reached.
    BeforeTge,
    /// The caller holds no claimable or refundable balance.
    NothingToClaim,
    /// The update would leave the signed 128-bit range.
    Overflow,
}

} // verus!
