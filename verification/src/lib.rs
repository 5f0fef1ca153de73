//! Accounting and lifecycle logic for a fixed-term token crowdsale.
//!
//! Participants exchange accepted payment assets for an allocation of a sale
//! asset, subject to per-participant purchase limits, a global soft and hard
//! cap, and time-gated phases. The contract state lives in a durable store
//! with two tiers: non-expiring identity fields and leased accounting
//! entries that are renewed on every access. Each public action validates
//! its inputs, applies the ledger update, and returns the escrow transfers
//! the host must execute atomically with it; every failure is a tagged
//! abort with no partial effects.

pub mod storage_types;
pub mod storage;
pub mod access;
pub mod balances;
pub mod payment_tokens;
pub mod rates;
pub mod sale_details;
pub mod sale_token;
pub mod contract;
