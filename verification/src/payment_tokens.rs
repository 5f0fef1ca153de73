//! The payment asset registry: an append-only list of accepted payment
//! assets. An asset stays supported forever once added; setting its rate to
//! zero deactivates it for refund and withdrawal iteration without removing
//! it. Callers must not add the same asset twice — a documented
//! precondition of the registry, not an enforced one.

use vstd::prelude::*;
use crate::contract::{TokenSale, active_prefix};
use crate::storage::{LeasedEntry, live_amount, values_preserved};

verus! {

/// Number of registered payment assets.
pub fn read_payment_count(sale: &TokenSale) -> (r: u32)
    requires
        sale.payment_tokens@.len() <= u32::MAX,
    ensures
        r == sale.payment_tokens@.len(),
{
    sale.payment_tokens.len() as u32
}

/// The full registry, in insertion order.
pub fn read_payment_tokens(sale: &TokenSale) -> (r: Vec<u64>)
    ensures
        r@ == sale.payment_tokens@,
{
    let mut tokens: Vec<u64> = Vec::new();
    let n: usize = sale.payment_tokens.len();
    let mut i: usize = 0;
    while i < n
        invariant
            n == sale.payment_tokens@.len(),
            i <= n,
            tokens@ == sale.payment_tokens@.take(i as int),
        decreases n - i,
    {
        tokens.push(sale.payment_tokens[i]);
        proof {
            assert(sale.payment_tokens@.take(i + 1) =~= sale.payment_tokens@.take(i as int)
                .push(sale.payment_tokens@[i as int]));
        }
        i = i + 1;
    }
    proof {
        assert(sale.payment_tokens@.take(n as int) =~= sale.payment_tokens@);
    }
    tokens
}

/// Whether `payment_token` is in the registry.
pub fn read_is_supported_payment_token(sale: &TokenSale, payment_token: u64) -> (r: bool)
    ensures
        r == sale.spec_supported(payment_token),
{
    let n: usize = sale.payment_tokens.len();
    let mut i: usize = 0;
    while i < n
        invariant
            n == sale.payment_tokens@.len(),
            i <= n,
            forall|j: int| 0 <= j < i ==> sale.payment_tokens@[j] != payment_token,
        decreases n - i,
    {
        if sale.payment_tokens[i] == payment_token {
            return true;
        }
        i = i + 1;
    }
    false
}

/// Append `token_address` to the registry; it is supported from now on.
pub fn write_payment_token(sale: &mut TokenSale, token_address: u64)
    ensures
        final(sale).payment_tokens@ == old(sale).payment_tokens@.push(token_address),
        final(sale).spec_supported(token_address),
        forall|t: u64| old(sale).spec_supported(t) ==> final(sale).spec_supported(t),
        *final(sale) == (TokenSale { payment_tokens: final(sale).payment_tokens, ..*old(sale) }),
{
    sale.payment_tokens.push(token_address);
    proof {
        assert(sale.payment_tokens@.last() == token_address);
        assert forall|t: u64| old(sale).spec_supported(t)
            implies sale.spec_supported(t) by {
            let j = choose|j: int| 0 <= j < old(sale).payment_tokens@.len()
                && old(sale).payment_tokens@[j] == t;
            assert(sale.payment_tokens@[j] == t);
        }
    }
}

/// Rates observed equal at `seq` pick out the same active assets.
proof fn lemma_active_prefix_congruent(
    tokens: Seq<u64>,
    r1: Seq<LeasedEntry>,
    r2: Seq<LeasedEntry>,
    seq: u32,
    n: int,
)
    requires
        forall|t: u64| live_amount(r2, t, 0, seq) == live_amount(r1, t, 0, seq),
    ensures
        active_prefix(tokens, r2, seq, n) == active_prefix(tokens, r1, seq, n),
    decreases n,
{
    if n > 0 {
        lemma_active_prefix_congruent(tokens, r1, r2, seq, n - 1);
    }
}

/// The registry filtered to assets whose rate is nonzero at `seq`, without
/// touching any lease; the validation phase of refund and withdrawal.
pub(crate) fn peek_active_payment_tokens(sale: &TokenSale, seq: u32) -> (r: Vec<u64>)
    ensures
        r@ == sale.spec_active(seq),
{
    let mut active: Vec<u64> = Vec::new();
    let n: usize = sale.payment_tokens.len();
    let mut i: usize = 0;
    while i < n
        invariant
            n == sale.payment_tokens@.len(),
            i <= n,
            active@ == active_prefix(sale.payment_tokens@, sale.rates.entries@, seq, i as int),
        decreases n - i,
    {
        let payment_token = sale.payment_tokens[i];
        let payment_rate = sale.rates.peek(payment_token, 0, seq);
        if payment_rate > 0 {
            active.push(payment_token);
        }
        proof {
            assert(active@ == active_prefix(
                sale.payment_tokens@, sale.rates.entries@, seq, i + 1));
        }
        i = i + 1;
    }
    active
}

/// The registry filtered to assets whose rate is nonzero at `seq`, renewing
/// the lease of every registered asset's rate entry as the read does.
pub fn read_active_payment_tokens(sale: &mut TokenSale, seq: u32) -> (r: Vec<u64>)
    ensures
        r@ == old(sale).spec_active(seq),
        r@ == final(sale).spec_active(seq),
        values_preserved(old(sale).rates.entries@, final(sale).rates.entries@, seq),
        *final(sale) == (TokenSale { rates: final(sale).rates, ..*old(sale) }),
{
    let active = peek_active_payment_tokens(sale, seq);
    let n: usize = sale.payment_tokens.len();
    let mut i: usize = 0;
    while i < n
        invariant
            n == sale.payment_tokens@.len(),
            i <= n,
            values_preserved(old(sale).rates.entries@, sale.rates.entries@, seq),
            *sale == (TokenSale { rates: sale.rates, ..*old(sale) }),
        decreases n - i,
    {
        let payment_token = sale.payment_tokens[i];
        sale.rates.touch(payment_token, 0, seq);
        i = i + 1;
    }
    proof {
        lemma_active_prefix_congruent(
            sale.payment_tokens@,
            old(sale).rates.entries@,
            sale.rates.entries@,
            seq,
            sale.payment_tokens@.len() as int,
        );
    }
    active
}

} // verus!
