//! The token sale contract state and its public action surface.
//!
//! `TokenSale` is the durable state of one sale: the non-expiring identity
//! fields (administrator, sale asset, fund recipient, parameters, payment
//! asset registry) and the leased accounting entries (exchange rates,
//! per-participant contributions and purchases, per-asset totals, the
//! running sold total and the participant count). Each action takes the
//! ledger context of the invocation, validates before it mutates, and
//! returns the escrow transfers the host must execute atomically with the
//! update; on any error the state is exactly as it was.

use vstd::prelude::*;
use vstd::arithmetic::div_mod::lemma_fundamental_div_mod;
use vstd::arithmetic::mul::{lemma_mul_inequality, lemma_mul_basics,
    lemma_mul_is_distributive_add};
use crate::storage::{LeasedMap, LeasedCell, LeasedEntry, live_amount, stored_amount,
    stored_sum, stored_sum_for, entry_fresh, lookup, values_preserved};
use crate::storage_types::{SalesParameter, Ledger, Escrow, EscrowDirection, Error, escrow_sum};
use crate::access::{has_administrator, read_administrator, write_administrator};
use crate::balances::{update_make_contribution_amount, update_participant_purchase_amount,
    record_purchase_check, zero_purchase, zero_contribution, zero_total_contribution,
    write_total_sold, read_participant_contribution_amount, read_participant_purchase_amount,
    read_total_contribution, read_total_sold};
use crate::payment_tokens::{read_is_supported_payment_token, write_payment_token,
    read_payment_tokens, peek_active_payment_tokens, read_active_payment_tokens};
use crate::rates::{read_sale_rate, write_sales_rate};
use crate::sale_details::{read_sales_parameters, write_sales_parameters, params_valid,
    read_fund_recipient, write_fund_recipient};
use crate::sale_token::{read_token, write_token, take_token, send_token};

verus! {

/// The durable state of one token sale.
pub struct TokenSale {
    /// Administrator address; set once, never reassigned.
    pub admin: Option<u64>,
    /// The asset being sold.
    pub sale_token: Option<u64>,
    /// Address that receives withdrawn funds after a successful sale.
    pub fund_recipient: Option<u64>,
    /// The active sale parameter record, replaced wholesale on write.
    pub sale_parameters: Option<SalesParameter>,
    /// Append-only registry of accepted payment assets.
    pub payment_tokens: Vec<u64>,
    /// Exchange rate per payment asset, keyed by `(token, 0)`.
    pub rates: LeasedMap,
    /// Contribution per participant and asset, keyed by `(participant, token)`.
    pub contributions: LeasedMap,
    /// Purchased sale-asset amount per participant, keyed by `(participant, 0)`.
    pub purchases: LeasedMap,
    /// Aggregate contribution per payment asset, keyed by `(token, 0)`.
    pub total_contributions: LeasedMap,
    /// Running total of sale-asset units sold.
    pub total_sold: LeasedCell,
    /// Count of distinct participants whose purchase went from zero to nonzero.
    pub participants_count: LeasedCell,
}

/// The first `n` registry entries filtered to assets whose rate is nonzero
/// at `seq`, in registry order.
pub open spec fn active_prefix(tokens: Seq<u64>, rate_entries: Seq<LeasedEntry>, seq: u32, n: int)
    -> Seq<u64>
    decreases n,
{
    if n <= 0 {
        Seq::empty()
    } else {
        let rest = active_prefix(tokens, rate_entries, seq, n - 1);
        if live_amount(rate_entries, tokens[n - 1], 0, seq) > 0 {
            rest.push(tokens[n - 1])
        } else {
            rest
        }
    }
}

/// Whether `t` occurs among the first `n` entries of `active`.
pub open spec fn appears_before(active: Seq<u64>, t: u64, n: int) -> bool {
    exists|k: int| 0 <= k < n && active[k] == t
}

/// The escrow instructions one refund pass emits over the first `n` entries
/// of the active list: at the first occurrence of each asset in which the
/// participant holds a positive contribution, one `OutOfCustody` instruction
/// paying exactly that balance to the participant, in registry order.
pub open spec fn refund_escrows(
    entries: Seq<LeasedEntry>,
    active: Seq<u64>,
    participant: u64,
    seq: u32,
    n: int,
) -> Seq<Escrow>
    decreases n,
{
    if n <= 0 {
        Seq::empty()
    } else {
        let rest = refund_escrows(entries, active, participant, seq, n - 1);
        let t = active[n - 1];
        let amount = live_amount(entries, participant, t, seq);
        if amount > 0 && !appears_before(active, t, n - 1) {
            rest.push(Escrow {
                direction: EscrowDirection::OutOfCustody,
                token: t,
                counterparty: participant,
                amount,
            })
        } else {
            rest
        }
    }
}

/// The escrow instructions one withdrawal pass emits over the first `n`
/// entries of the active list: at the first occurrence of each asset holding
/// a positive aggregate contribution, one `OutOfCustody` instruction paying
/// exactly that total to the fund recipient, in registry order.
pub open spec fn withdraw_escrows(
    entries: Seq<LeasedEntry>,
    active: Seq<u64>,
    recipient: u64,
    seq: u32,
    n: int,
) -> Seq<Escrow>
    decreases n,
{
    if n <= 0 {
        Seq::empty()
    } else {
        let rest = withdraw_escrows(entries, active, recipient, seq, n - 1);
        let t = active[n - 1];
        let amount = live_amount(entries, t, 0, seq);
        if amount > 0 && !appears_before(active, t, n - 1) {
            rest.push(Escrow {
                direction: EscrowDirection::OutOfCustody,
                token: t,
                counterparty: recipient,
                amount,
            })
        } else {
            rest
        }
    }
}

/// `a * b` for non-negative factors, or `None` when the product leaves the
/// signed 128-bit range.
fn checked_mul_nonneg(a: i128, b: i128) -> (r: Option<i128>)
    requires
        a >= 0,
        b >= 0,
    ensures
        match r {
            Some(v) => v == a * b,
            None => a * b > i128::MAX,
        },
{
    if a == 0 || b == 0 {
        proof {
            lemma_mul_basics(a as int);
            lemma_mul_basics(b as int);
        }
        return Some(0);
    }
    let q: i128 = i128::MAX / a;
    proof {
        lemma_fundamental_div_mod(i128::MAX as int, a as int);
        lemma_mul_is_distributive_add(a as int, q as int, 1);
        lemma_mul_basics(a as int);
    }
    if b > q {
        proof {
            lemma_mul_inequality(q as int + 1, b as int, a as int);
        }
        None
    } else {
        proof {
            lemma_mul_inequality(b as int, q as int, a as int);
        }
        Some(a * b)
    }
}

/// The all-zero parameter record returned while no record is stored.
pub open spec fn empty_parameters() -> SalesParameter {
    SalesParameter {
        start_time: 0,
        end_time: 0,
        soft_cap: 0,
        hard_cap: 0,
        min_buy: 0,
        max_buy: 0,
        tge_time: 0,
    }
}

impl TokenSale {
    /// The stored parameter record, or the all-zero default.
    pub open spec fn spec_params(self) -> SalesParameter {
        match self.sale_parameters {
            Some(p) => p,
            None => empty_parameters(),
        }
    }

    /// Whether `token` is in the payment asset registry.
    pub open spec fn spec_supported(self, token: u64) -> bool {
        self.payment_tokens@.contains(token)
    }

    /// The exchange rate of `token` observable at `seq`; zero when unset.
    pub open spec fn spec_rate(self, token: u64, seq: u32) -> i128 {
        live_amount(self.rates.entries@, token, 0, seq)
    }

    /// The contribution of `participant` in `token` observable at `seq`.
    pub open spec fn spec_contribution(self, participant: u64, token: u64, seq: u32) -> i128 {
        live_amount(self.contributions.entries@, participant, token, seq)
    }

    /// The purchased sale-asset amount of `participant` observable at `seq`.
    pub open spec fn spec_purchased(self, participant: u64, seq: u32) -> i128 {
        live_amount(self.purchases.entries@, participant, 0, seq)
    }

    /// The aggregate contribution in `token` observable at `seq`.
    pub open spec fn spec_total_contribution(self, token: u64, seq: u32) -> i128 {
        live_amount(self.total_contributions.entries@, token, 0, seq)
    }

    /// The sold total observable at `seq`.
    pub open spec fn spec_total_sold(self, seq: u32) -> i128 {
        self.total_sold.live_value(seq)
    }

    /// The participant count observable at `seq`.
    pub open spec fn spec_participants_count(self, seq: u32) -> i128 {
        self.participants_count.live_value(seq)
    }

    /// The registry filtered to assets whose rate is nonzero at `seq`, in
    /// registry order: the assets that refund and withdrawal iterate.
    pub open spec fn spec_active(self, seq: u32) -> Seq<u64> {
        active_prefix(
            self.payment_tokens@,
            self.rates.entries@,
            seq,
            self.payment_tokens@.len() as int,
        )
    }

    /// The sale outcome pinned at the boundary: reaching the soft cap counts
    /// as success.
    pub open spec fn spec_successful(self, seq: u32) -> bool {
        self.spec_total_sold(seq) >= self.spec_params().soft_cap as i128
    }

    /// The sold total recorded so far equals the sum of all stored
    /// per-participant purchased amounts. Holds from initialization through
    /// every contribution, until the first claim zeroes a purchase.
    pub open spec fn sold_matches_purchases(self) -> bool {
        self.total_sold.amount as int == stored_sum(self.purchases.entries@)
    }

    /// A fresh, unconfigured sale: every entry reads as its absence-default.
    pub fn new() -> (r: Self)
        ensures
            r.admin.is_none(),
            r.sale_token.is_none(),
            r.fund_recipient.is_none(),
            r.sale_parameters.is_none(),
            r.payment_tokens@.len() == 0,
            r.rates.entries@.len() == 0,
            r.contributions.entries@.len() == 0,
            r.purchases.entries@.len() == 0,
            r.total_contributions.entries@.len() == 0,
            r.total_sold.amount == 0 && r.total_sold.live_until == 0,
            r.participants_count.amount == 0 && r.participants_count.live_until == 0,
            r.sold_matches_purchases(),
    {
        TokenSale {
            admin: None,
            sale_token: None,
            fund_recipient: None,
            sale_parameters: None,
            payment_tokens: Vec::new(),
            rates: LeasedMap::new(),
            contributions: LeasedMap::new(),
            purchases: LeasedMap::new(),
            total_contributions: LeasedMap::new(),
            total_sold: LeasedCell::new(),
            participants_count: LeasedCell::new(),
        }
    }
}

impl TokenSale {
    /// Why an admin-gated action rejects its caller.
    pub open spec fn admin_gate(self, caller: u64) -> Option<Error> {
        match self.admin {
            None => Some(Error::NotInitialized),
            Some(a) => if caller != a {
                Some(Error::Unauthorized)
            } else {
                None
            },
        }
    }

    /// Store the administrator; fails once one is stored.
    pub fn initialize(&mut self, admin: u64) -> (r: Result<(), Error>)
        ensures
            old(self).admin.is_some() ==> r == Err::<(), Error>(Error::AlreadyInitialized)
                && *final(self) == *old(self),
            old(self).admin.is_none() ==> r == Ok::<(), Error>(())
                && *final(self) == (TokenSale { admin: Some(admin), ..*old(self) }),
    {
        if has_administrator(self) {
            return Err(Error::AlreadyInitialized);
        }
        write_administrator(self, admin);
        Ok(())
    }

    /// Admin-only: configure the sale asset.
    pub fn set_sale_token(&mut self, caller: u64, token_address: u64) -> (r: Result<(), Error>)
        ensures
            match old(self).admin_gate(caller) {
                Some(e) => r == Err::<(), Error>(e) && *final(self) == *old(self),
                None => r == Ok::<(), Error>(())
                    && *final(self) == (TokenSale {
                        sale_token: Some(token_address),
                        ..*old(self)
                    }),
            },
    {
        let admin = match read_administrator(self) {
            Ok(a) => a,
            Err(e) => return Err(e),
        };
        if caller != admin {
            return Err(Error::Unauthorized);
        }
        write_token(self, token_address);
        Ok(())
    }

    /// Admin-only: append a payment asset to the registry.
    pub fn set_payment_token(&mut self, caller: u64, payment_token: u64) -> (r: Result<(), Error>)
        ensures
            match old(self).admin_gate(caller) {
                Some(e) => r == Err::<(), Error>(e) && *final(self) == *old(self),
                None => r == Ok::<(), Error>(())
                    && final(self).payment_tokens@
                        == old(self).payment_tokens@.push(payment_token)
                    && final(self).spec_supported(payment_token)
                    && *final(self) == (TokenSale {
                        payment_tokens: final(self).payment_tokens,
                        ..*old(self)
                    }),
            },
    {
        let admin = match read_administrator(self) {
            Ok(a) => a,
            Err(e) => return Err(e),
        };
        if caller != admin {
            return Err(Error::Unauthorized);
        }
        write_payment_token(self, payment_token);
        Ok(())
    }

    /// Admin-only: designate the fund recipient.
    pub fn set_fund_recipient(&mut self, caller: u64, recipient: u64) -> (r: Result<(), Error>)
        ensures
            match old(self).admin_gate(caller) {
                Some(e) => r == Err::<(), Error>(e) && *final(self) == *old(self),
                None => r == Ok::<(), Error>(())
                    && *final(self) == (TokenSale {
                        fund_recipient: Some(recipient),
                        ..*old(self)
                    }),
            },
    {
        let admin = match read_administrator(self) {
            Ok(a) => a,
            Err(e) => return Err(e),
        };
        if caller != admin {
            return Err(Error::Unauthorized);
        }
        write_fund_recipient(self, recipient);
        Ok(())
    }

    /// Why `set_swap_rate` rejects its inputs.
    pub open spec fn set_rate_check(self, caller: u64, payment_token: u64) -> Option<Error> {
        match self.admin_gate(caller) {
            Some(e) => Some(e),
            None => if !self.spec_supported(payment_token) {
                Some(Error::UnsupportedPaymentToken)
            } else {
                None
            },
        }
    }

    /// Admin-only: set the exchange rate of a registered payment asset. A
    /// rate of zero deactivates the asset for refund and withdrawal
    /// iteration without removing its registry entry.
    pub fn set_swap_rate(
        &mut self,
        led: &Ledger,
        caller: u64,
        payment_token: u64,
        rate: u64,
    ) -> (r: Result<(), Error>)
        ensures
            match old(self).set_rate_check(caller, payment_token) {
                Some(e) => r == Err::<(), Error>(e) && *final(self) == *old(self),
                None => r == Ok::<(), Error>(())
                    && final(self).spec_rate(payment_token, led.sequence) == rate as i128
                    && (forall|t: u64| t != payment_token
                        ==> final(self).spec_rate(t, led.sequence)
                            == old(self).spec_rate(t, led.sequence))
                    && *final(self) == (TokenSale { rates: final(self).rates, ..*old(self) }),
            },
    {
        let admin = match read_administrator(self) {
            Ok(a) => a,
            Err(e) => return Err(e),
        };
        if caller != admin {
            return Err(Error::Unauthorized);
        }
        if !read_is_supported_payment_token(self, payment_token) {
            return Err(Error::UnsupportedPaymentToken);
        }
        write_sales_rate(self, payment_token, rate, led.sequence);
        Ok(())
    }

    /// Why `contribute` rejects its inputs, or the sale-asset amount the
    /// contribution purchases at the asset's exchange rate. The minimum and
    /// maximum buy bounds apply to the converted amount, and the cumulative
    /// purchase cap to the converted amount added to what the participant
    /// already purchased.
    pub open spec fn contribute_check(
        self,
        led: Ledger,
        participant: u64,
        payment_token: u64,
        amount: i128,
    ) -> Result<int, Error> {
        let params = self.spec_params();
        let purchased = amount * self.spec_rate(payment_token, led.sequence);
        if !self.spec_supported(payment_token) {
            Err(Error::UnsupportedPaymentToken)
        } else if params.end_time < led.timestamp {
            Err(Error::SaleOver)
        } else if amount < 0 {
            Err(Error::InvalidAmount)
        } else if purchased > params.max_buy {
            Err(Error::AboveMaxBuy)
        } else if purchased < params.min_buy {
            Err(Error::BelowMinBuy)
        } else {
            match record_purchase_check(self, participant, purchased as i128, led.sequence) {
                Some(e) => Err(e),
                None => {
                    if self.spec_contribution(participant, payment_token, led.sequence)
                        + amount > i128::MAX {
                        Err(Error::Overflow)
                    } else if self.spec_total_contribution(payment_token, led.sequence)
                        + amount > i128::MAX {
                        Err(Error::Overflow)
                    } else if self.spec_total_sold(led.sequence) + purchased > i128::MAX {
                        Err(Error::Overflow)
                    } else {
                        Ok(purchased)
                    }
                }
            }
        }
    }

    /// Participant action: escrow-in `amount` of `payment_token`, record the
    /// contribution and the purchase it converts to, and bump the sold
    /// total. A rejected contribution — including one whose cumulative
    /// purchase would exceed the maximum buy — changes nothing.
    pub fn contribute(
        &mut self,
        led: &Ledger,
        participant: u64,
        payment_token: u64,
        amount: i128,
    ) -> (r: Result<Escrow, Error>)
        ensures
            match old(self).contribute_check(*led, participant, payment_token, amount) {
                Err(e) => r == Err::<Escrow, Error>(e) && *final(self) == *old(self),
                Ok(purchased) => {
                    let seq = led.sequence;
                    &&& r == Ok::<Escrow, Error>(Escrow {
                        direction: EscrowDirection::IntoCustody,
                        token: payment_token,
                        counterparty: participant,
                        amount,
                    })
                    &&& final(self).spec_contribution(participant, payment_token, seq)
                        == old(self).spec_contribution(participant, payment_token, seq) + amount
                    &&& forall|a2: u64, b2: u64| !(a2 == participant && b2 == payment_token)
                        ==> lookup(final(self).contributions.entries@, a2, b2)
                            == lookup(old(self).contributions.entries@, a2, b2)
                    &&& entry_fresh(old(self).contributions.entries@, participant, payment_token, seq)
                        ==> stored_sum_for(final(self).contributions.entries@, participant)
                            == stored_sum_for(old(self).contributions.entries@, participant)
                                + amount
                    &&& forall|a2: u64| a2 != participant
                        ==> stored_sum_for(final(self).contributions.entries@, a2)
                            == stored_sum_for(old(self).contributions.entries@, a2)
                    &&& final(self).spec_purchased(participant, seq)
                        == old(self).spec_purchased(participant, seq) + purchased
                    &&& final(self).spec_purchased(participant, seq)
                        <= old(self).spec_params().max_buy
                    &&& forall|a2: u64, b2: u64| !(a2 == participant && b2 == 0)
                        ==> lookup(final(self).purchases.entries@, a2, b2)
                            == lookup(old(self).purchases.entries@, a2, b2)
                    &&& final(self).spec_total_contribution(payment_token, seq)
                        == old(self).spec_total_contribution(payment_token, seq) + amount
                    &&& final(self).spec_total_sold(seq)
                        == old(self).spec_total_sold(seq) + purchased
                    &&& purchased >= 0
                    &&& final(self).spec_total_sold(seq) >= old(self).spec_total_sold(seq)
                    &&& final(self).spec_participants_count(seq)
                        == old(self).spec_participants_count(seq)
                            + (if old(self).spec_purchased(participant, seq) == 0
                                && purchased > 0 { 1int } else { 0int })
                    &&& old(self).sold_matches_purchases()
                        && entry_fresh(old(self).purchases.entries@, participant, 0, seq)
                        && old(self).total_sold.fresh(seq)
                        ==> final(self).sold_matches_purchases()
                    &&& values_preserved(old(self).rates.entries@, final(self).rates.entries@, seq)
                    &&& *final(self) == (TokenSale {
                        contributions: final(self).contributions,
                        total_contributions: final(self).total_contributions,
                        purchases: final(self).purchases,
                        participants_count: final(self).participants_count,
                        total_sold: final(self).total_sold,
                        rates: final(self).rates,
                        ..*old(self)
                    })
                }
            },
    {
        let seq = led.sequence;
        if !read_is_supported_payment_token(self, payment_token) {
            return Err(Error::UnsupportedPaymentToken);
        }
        let params = read_sales_parameters(self);
        if params.end_time < led.timestamp {
            return Err(Error::SaleOver);
        }
        if amount < 0 {
            return Err(Error::InvalidAmount);
        }
        let rate = self.rates.peek(payment_token, 0, seq);
        let max_i: i128 = params.max_buy as i128;
        let ghost purchased_spec: int = amount * self.spec_rate(payment_token, seq);
        let amount_purchased: i128;
        if amount == 0 || rate == 0 {
            proof {
                lemma_mul_basics(amount as int);
                lemma_mul_basics(self.spec_rate(payment_token, seq) as int);
            }
            assert(purchased_spec == 0);
            amount_purchased = 0;
        } else if rate < 0 {
            // a negative rate converts a positive amount below any minimum
            proof {
                lemma_mul_inequality(rate as int, -1, amount as int);
            }
            assert(purchased_spec <= -1);
            return Err(Error::BelowMinBuy);
        } else if amount > max_i {
            proof {
                lemma_mul_inequality(1, rate as int, amount as int);
            }
            assert(purchased_spec > params.max_buy);
            return Err(Error::AboveMaxBuy);
        } else if rate > max_i {
            proof {
                lemma_mul_inequality(1, amount as int, rate as int);
            }
            assert(purchased_spec > params.max_buy);
            return Err(Error::AboveMaxBuy);
        } else {
            // both factors are in [1, max_buy], so the product fits in u128
            proof {
                lemma_mul_inequality(amount as int, u64::MAX as int, rate as int);
                lemma_mul_inequality(rate as int, u64::MAX as int, u64::MAX as int);
            }
            let product: u128 = (amount as u128) * (rate as u128);
            assert(product as int == purchased_spec);
            if product > params.max_buy as u128 {
                return Err(Error::AboveMaxBuy);
            }
            assert(product <= u64::MAX as u128);
            amount_purchased = product as i128;
            assert(amount_purchased as int == purchased_spec);
        }
        assert(amount_purchased as int == purchased_spec);
        if amount_purchased > max_i {
            return Err(Error::AboveMaxBuy);
        }
        if amount_purchased < params.min_buy as i128 {
            return Err(Error::BelowMinBuy);
        }
        let pre_purchase = self.purchases.peek(participant, 0, seq);
        if pre_purchase > max_i - amount_purchased {
            return Err(Error::MaxBuyExceeded);
        }
        if pre_purchase == 0 && amount_purchased > 0 {
            if self.participants_count.peek(seq) == i128::MAX {
                return Err(Error::Overflow);
            }
        }
        let cur_contribution = self.contributions.peek(participant, payment_token, seq);
        if cur_contribution > i128::MAX - amount {
            return Err(Error::Overflow);
        }
        let cur_total_contribution = self.total_contributions.peek(payment_token, 0, seq);
        if cur_total_contribution > i128::MAX - amount {
            return Err(Error::Overflow);
        }
        let cur_total_sold = self.total_sold.peek(seq);
        if cur_total_sold > i128::MAX - amount_purchased {
            return Err(Error::Overflow);
        }
        match update_participant_purchase_amount(self, participant, amount_purchased, seq) {
            Ok(()) => {}
            Err(e) => return Err(e),
        }
        update_make_contribution_amount(self, participant, payment_token, amount, seq);
        write_total_sold(self, amount_purchased, seq);
        self.rates.touch(payment_token, 0, seq);
        Ok(take_token(payment_token, participant, amount))
    }

    /// Why `claim_purchased_tokens` rejects its caller, or the claimable
    /// amount. Claiming requires a successful sale — the sold total reached
    /// the soft cap — and the token generation event time.
    pub open spec fn claim_check(self, led: Ledger, participant: u64) -> Result<i128, Error> {
        if !self.spec_successful(led.sequence) {
            Err(Error::SaleNotSuccessful)
        } else if self.spec_params().tge_time > led.timestamp {
            Err(Error::BeforeTge)
        } else if self.spec_purchased(participant, led.sequence) == 0 {
            Err(Error::NothingToClaim)
        } else if self.sale_token.is_none() {
            Err(Error::SaleTokenNotSet)
        } else {
            Ok(self.spec_purchased(participant, led.sequence))
        }
    }

    /// Participant action: claim the purchased sale-asset amount of a
    /// successful sale after the token generation event. The purchased
    /// balance is zeroed, so a repeated claim finds nothing to claim.
    pub fn claim_purchased_tokens(&mut self, led: &Ledger, participant: u64)
        -> (r: Result<Escrow, Error>)
        ensures
            match old(self).claim_check(*led, participant) {
                Err(e) => r == Err::<Escrow, Error>(e) && *final(self) == *old(self),
                Ok(claimable) => {
                    let seq = led.sequence;
                    &&& r == Ok::<Escrow, Error>(Escrow {
                        direction: EscrowDirection::OutOfCustody,
                        token: old(self).sale_token.unwrap(),
                        counterparty: participant,
                        amount: claimable,
                    })
                    &&& final(self).spec_purchased(participant, seq) == 0
                    &&& stored_amount(final(self).purchases.entries@, participant, 0) == 0
                    &&& forall|a2: u64, b2: u64| !(a2 == participant && b2 == 0)
                        ==> lookup(final(self).purchases.entries@, a2, b2)
                            == lookup(old(self).purchases.entries@, a2, b2)
                    &&& stored_sum(final(self).purchases.entries@)
                        == stored_sum(old(self).purchases.entries@)
                            - stored_amount(old(self).purchases.entries@, participant, 0)
                    &&& final(self).spec_total_sold(seq) == old(self).spec_total_sold(seq)
                    &&& final(self).total_sold.amount == old(self).total_sold.amount
                    &&& *final(self) == (TokenSale {
                        purchases: final(self).purchases,
                        total_sold: final(self).total_sold,
                        ..*old(self)
                    })
                }
            },
    {
        let seq = led.sequence;
        let total_raised = self.total_sold.peek(seq);
        let params = read_sales_parameters(self);
        if total_raised < params.soft_cap as i128 {
            return Err(Error::SaleNotSuccessful);
        }
        if params.tge_time > led.timestamp {
            return Err(Error::BeforeTge);
        }
        let amount_claimable = self.purchases.peek(participant, 0, seq);
        if amount_claimable == 0 {
            return Err(Error::NothingToClaim);
        }
        let token_address = match read_token(self) {
            Ok(t) => t,
            Err(e) => return Err(e),
        };
        let claimed = zero_purchase(self, participant, seq);
        self.total_sold.touch(seq);
        Ok(send_token(token_address, participant, claimed))
    }

    /// Whether some active asset still holds a positive contribution of
    /// `participant` at `seq`.
    pub open spec fn spec_refundable(self, participant: u64, seq: u32) -> bool {
        exists|i: int| 0 <= i < self.spec_active(seq).len()
            && self.spec_contribution(participant, self.spec_active(seq)[i], seq) > 0
    }

    /// Why `claim_refund` rejects its caller. Refunds require a failed sale
    /// — the sold total stayed below the soft cap — after the end time, and
    /// something left to refund.
    pub open spec fn refund_check(self, led: Ledger, participant: u64) -> Option<Error> {
        if self.spec_successful(led.sequence) {
            Some(Error::SaleSuccessful)
        } else if self.spec_params().end_time > led.timestamp {
            Some(Error::SaleNotOver)
        } else if !self.spec_refundable(participant, led.sequence) {
            Some(Error::NothingToClaim)
        } else {
            None
        }
    }

    /// Participant action: after a failed sale is over, refund every
    /// positive contribution the participant holds in an active payment
    /// asset, zeroing each refunded balance. The escrow instructions carry
    /// exactly what the zeroed balances held, so a repeated refund finds
    /// nothing to claim.
    pub fn claim_refund(&mut self, led: &Ledger, participant: u64)
        -> (r: Result<Vec<Escrow>, Error>)
        ensures
            match old(self).refund_check(*led, participant) {
                Some(e) => r == Err::<Vec<Escrow>, Error>(e) && *final(self) == *old(self),
                None => match r {
                    Err(_) => false,
                    Ok(transfers) => {
                        let seq = led.sequence;
                        let active = old(self).spec_active(seq);
                        &&& forall|i: int| 0 <= i < active.len()
                            ==> final(self).spec_contribution(participant, active[i], seq)
                                == (if old(self).spec_contribution(participant, active[i], seq)
                                    > 0 { 0i128 } else {
                                    old(self).spec_contribution(participant, active[i], seq)
                                })
                        &&& forall|a2: u64, b2: u64| a2 != participant || !active.contains(b2)
                            ==> lookup(final(self).contributions.entries@, a2, b2)
                                == lookup(old(self).contributions.entries@, a2, b2)
                        &&& stored_sum_for(final(self).contributions.entries@, participant)
                            == stored_sum_for(old(self).contributions.entries@, participant)
                                - escrow_sum(transfers@)
                        &&& forall|a2: u64| a2 != participant
                            ==> stored_sum_for(final(self).contributions.entries@, a2)
                                == stored_sum_for(old(self).contributions.entries@, a2)
                        &&& transfers@ == refund_escrows(
                            old(self).contributions.entries@, active, participant, seq,
                            active.len() as int)
                        &&& forall|k: int| 0 <= k < transfers@.len()
                            ==> transfers@[k].direction == EscrowDirection::OutOfCustody
                                && transfers@[k].counterparty == participant
                                && transfers@[k].amount > 0
                                && active.contains(transfers@[k].token)
                        &&& values_preserved(
                            old(self).rates.entries@, final(self).rates.entries@, seq)
                        &&& final(self).spec_total_sold(seq) == old(self).spec_total_sold(seq)
                        &&& final(self).total_sold.amount == old(self).total_sold.amount
                        &&& final(self).spec_active(seq) == old(self).spec_active(seq)
                        &&& *final(self) == (TokenSale {
                            contributions: final(self).contributions,
                            rates: final(self).rates,
                            total_sold: final(self).total_sold,
                            ..*old(self)
                        })
                    }
                },
            },
    {
        let seq = led.sequence;
        let total_raised = self.total_sold.peek(seq);
        let params = read_sales_parameters(self);
        if total_raised >= params.soft_cap as i128 {
            return Err(Error::SaleSuccessful);
        }
        if params.end_time > led.timestamp {
            return Err(Error::SaleNotOver);
        }
        let active = peek_active_payment_tokens(self, seq);
        let n: usize = active.len();
        let mut refundable = false;
        let mut i: usize = 0;
        while i < n
            invariant
                n == active@.len(),
                i <= n,
                active@ == self.spec_active(seq),
                refundable <==> exists|j: int| 0 <= j < i
                    && self.spec_contribution(participant, active@[j], seq) > 0,
            decreases n - i,
        {
            if self.contributions.peek(participant, active[i], seq) > 0 {
                refundable = true;
            }
            i = i + 1;
        }
        if !refundable {
            return Err(Error::NothingToClaim);
        }
        let active2 = read_active_payment_tokens(self, seq);
        self.total_sold.touch(seq);
        let ghost s0 = *self;
        let mut transfers: Vec<Escrow> = Vec::new();
        let n2: usize = active2.len();
        let mut i2: usize = 0;
        while i2 < n2
            invariant
                n2 == active2@.len(),
                i2 <= n2,
                *self == (TokenSale { contributions: self.contributions, ..s0 }),
                forall|j: int| 0 <= j < i2
                    ==> live_amount(self.contributions.entries@, participant, active2@[j], seq)
                        == (if live_amount(s0.contributions.entries@, participant,
                            active2@[j], seq) > 0 { 0i128 } else {
                            live_amount(s0.contributions.entries@, participant,
                                active2@[j], seq)
                        }),
                forall|a2: u64, b2: u64| a2 != participant
                    || (forall|j: int| 0 <= j < i2 ==> active2@[j] != b2)
                    ==> lookup(self.contributions.entries@, a2, b2)
                        == lookup(s0.contributions.entries@, a2, b2),
                stored_sum_for(self.contributions.entries@, participant)
                    == stored_sum_for(s0.contributions.entries@, participant)
                        - escrow_sum(transfers@),
                forall|a2: u64| a2 != participant
                    ==> stored_sum_for(self.contributions.entries@, a2)
                        == stored_sum_for(s0.contributions.entries@, a2),
                forall|k: int| 0 <= k < transfers@.len()
                    ==> transfers@[k].direction == EscrowDirection::OutOfCustody
                        && transfers@[k].counterparty == participant
                        && transfers@[k].amount > 0
                        && active2@.contains(transfers@[k].token),
                transfers@ == refund_escrows(
                    s0.contributions.entries@, active2@, participant, seq, i2 as int),
            decreases n2 - i2,
        {
            let payment_token = active2[i2];
            let ghost cur_entries = self.contributions.entries@;
            let claimable = self.contributions.peek(participant, payment_token, seq);
            if claimable > 0 {
                let ghost tprev = transfers@;
                let claimed = zero_contribution(self, participant, payment_token, seq);
                let instruction = send_token(payment_token, participant, claimed);
                transfers.push(instruction);
                proof {
                    assert(transfers@.drop_last() =~= tprev);
                    assert(escrow_sum(transfers@) == escrow_sum(tprev) + claimed);
                    assert(active2@[i2 as int] == payment_token);
                    assert(active2@.contains(payment_token));
                    // a positive balance means this is the asset's first
                    // occurrence: an earlier one would have zeroed it
                    if appears_before(active2@, payment_token, i2 as int) {
                        let k = choose|k: int| 0 <= k < i2 && active2@[k] == payment_token;
                        assert(live_amount(cur_entries, participant, payment_token, seq) <= 0);
                        assert(false);
                    }
                    assert(forall|j: int| 0 <= j < i2 ==> active2@[j] != payment_token);
                    assert(live_amount(s0.contributions.entries@, participant, payment_token,
                        seq) == claimable);
                    assert(transfers@ == refund_escrows(
                        s0.contributions.entries@, active2@, participant, seq, i2 + 1));
                }
            } else {
                proof {
                    if !appears_before(active2@, payment_token, i2 as int) {
                        assert(forall|j: int| 0 <= j < i2 ==> active2@[j] != payment_token);
                        assert(live_amount(s0.contributions.entries@, participant,
                            payment_token, seq) == claimable);
                    }
                    assert(transfers@ == refund_escrows(
                        s0.contributions.entries@, active2@, participant, seq, i2 + 1));
                }
            }
            i2 = i2 + 1;
        }
        Ok(transfers)
    }

    /// Why `withdraw_raised_funds` rejects its caller. Withdrawal requires
    /// the designated fund recipient, a sale that is over, and the soft cap
    /// reached.
    pub open spec fn withdraw_check(self, led: Ledger, caller: u64) -> Option<Error> {
        match self.fund_recipient {
            None => Some(Error::FundRecipientNotSet),
            Some(recipient) => if caller != recipient {
                Some(Error::Unauthorized)
            } else if self.spec_params().end_time > led.timestamp {
                Some(Error::SaleNotOver)
            } else if !self.spec_successful(led.sequence) {
                Some(Error::SaleNotSuccessful)
            } else {
                None
            },
        }
    }

    /// Fund-recipient action: after a successful sale is over, withdraw the
    /// aggregate contribution of every active payment asset, zeroing each
    /// withdrawn total.
    pub fn withdraw_raised_funds(&mut self, led: &Ledger, caller: u64)
        -> (r: Result<Vec<Escrow>, Error>)
        ensures
            match old(self).withdraw_check(*led, caller) {
                Some(e) => r == Err::<Vec<Escrow>, Error>(e) && *final(self) == *old(self),
                None => match r {
                    Err(_) => false,
                    Ok(transfers) => {
                        let seq = led.sequence;
                        let active = old(self).spec_active(seq);
                        &&& forall|i: int| 0 <= i < active.len()
                            ==> final(self).spec_total_contribution(active[i], seq)
                                == (if old(self).spec_total_contribution(active[i], seq) > 0
                                    { 0i128 } else {
                                    old(self).spec_total_contribution(active[i], seq)
                                })
                        &&& forall|a2: u64, b2: u64| !active.contains(a2) || b2 != 0
                            ==> lookup(final(self).total_contributions.entries@, a2, b2)
                                == lookup(old(self).total_contributions.entries@, a2, b2)
                        &&& transfers@ == withdraw_escrows(
                            old(self).total_contributions.entries@, active,
                            old(self).fund_recipient.unwrap(), seq, active.len() as int)
                        &&& forall|k: int| 0 <= k < transfers@.len()
                            ==> transfers@[k].direction == EscrowDirection::OutOfCustody
                                && transfers@[k].counterparty
                                    == old(self).fund_recipient.unwrap()
                                && transfers@[k].amount > 0
                                && active.contains(transfers@[k].token)
                        &&& values_preserved(
                            old(self).rates.entries@, final(self).rates.entries@, seq)
                        &&& final(self).spec_total_sold(seq) == old(self).spec_total_sold(seq)
                        &&& final(self).total_sold.amount == old(self).total_sold.amount
                        &&& final(self).spec_active(seq) == old(self).spec_active(seq)
                        &&& *final(self) == (TokenSale {
                            total_contributions: final(self).total_contributions,
                            rates: final(self).rates,
                            total_sold: final(self).total_sold,
                            ..*old(self)
                        })
                    }
                },
            },
    {
        let seq = led.sequence;
        let fund_recipient = match read_fund_recipient(self) {
            Ok(a) => a,
            Err(e) => return Err(e),
        };
        if caller != fund_recipient {
            return Err(Error::Unauthorized);
        }
        let params = read_sales_parameters(self);
        if params.end_time > led.timestamp {
            return Err(Error::SaleNotOver);
        }
        let total_sold = self.total_sold.peek(seq);
        if total_sold < params.soft_cap as i128 {
            return Err(Error::SaleNotSuccessful);
        }
        let active = read_active_payment_tokens(self, seq);
        self.total_sold.touch(seq);
        let ghost s0 = *self;
        let mut transfers: Vec<Escrow> = Vec::new();
        let n: usize = active.len();
        let mut i: usize = 0;
        while i < n
            invariant
                n == active@.len(),
                i <= n,
                *self == (TokenSale {
                    total_contributions: self.total_contributions,
                    ..s0
                }),
                forall|j: int| 0 <= j < i
                    ==> live_amount(self.total_contributions.entries@, active@[j], 0, seq)
                        == (if live_amount(s0.total_contributions.entries@, active@[j], 0, seq)
                            > 0 { 0i128 } else {
                            live_amount(s0.total_contributions.entries@, active@[j], 0, seq)
                        }),
                forall|a2: u64, b2: u64|
                    (forall|j: int| 0 <= j < i ==> active@[j] != a2) || b2 != 0
                    ==> lookup(self.total_contributions.entries@, a2, b2)
                        == lookup(s0.total_contributions.entries@, a2, b2),
                forall|k: int| 0 <= k < transfers@.len()
                    ==> transfers@[k].direction == EscrowDirection::OutOfCustody
                        && transfers@[k].counterparty == fund_recipient
                        && transfers@[k].amount > 0
                        && active@.contains(transfers@[k].token),
                transfers@ == withdraw_escrows(
                    s0.total_contributions.entries@, active@, fund_recipient, seq, i as int),
            decreases n - i,
        {
            let payment_token = active[i];
            let ghost cur_entries = self.total_contributions.entries@;
            let withdrawable = self.total_contributions.peek(payment_token, 0, seq);
            if withdrawable > 0 {
                let withdrawn = zero_total_contribution(self, payment_token, seq);
                let instruction = send_token(payment_token, fund_recipient, withdrawn);
                transfers.push(instruction);
                proof {
                    assert(active@[i as int] == payment_token);
                    assert(active@.contains(payment_token));
                    // a positive total means this is the asset's first
                    // occurrence: an earlier one would have zeroed it
                    if appears_before(active@, payment_token, i as int) {
                        let k = choose|k: int| 0 <= k < i && active@[k] == payment_token;
                        assert(live_amount(cur_entries, payment_token, 0, seq) <= 0);
                        assert(false);
                    }
                    assert(forall|j: int| 0 <= j < i ==> active@[j] != payment_token);
                    assert(live_amount(s0.total_contributions.entries@, payment_token, 0, seq)
                        == withdrawable);
                    assert(transfers@ == withdraw_escrows(
                        s0.total_contributions.entries@, active@, fund_recipient, seq, i + 1));
                }
            } else {
                proof {
                    if !appears_before(active@, payment_token, i as int) {
                        assert(forall|j: int| 0 <= j < i ==> active@[j] != payment_token);
                        assert(live_amount(s0.total_contributions.entries@, payment_token, 0,
                            seq) == withdrawable);
                    }
                    assert(transfers@ == withdraw_escrows(
                        s0.total_contributions.entries@, active@, fund_recipient, seq, i + 1));
                }
            }
            i = i + 1;
        }
        Ok(transfers)
    }

    /// Why `set_sale_parameters` rejects its inputs.
    pub open spec fn set_parameters_check(
        self,
        now: u64,
        caller: u64,
        start_time: u64,
        end_time: u64,
        soft_cap: u64,
        hard_cap: u64,
        min_buy: u64,
        max_buy: u64,
        tge_time: u64,
    ) -> Option<Error> {
        match self.admin_gate(caller) {
            Some(e) => Some(e),
            None => if !params_valid(
                now, start_time, end_time, soft_cap, hard_cap, min_buy, max_buy, tge_time,
            ) {
                Some(Error::InvalidParameters)
            } else if self.sale_token.is_none() {
                Some(Error::SaleTokenNotSet)
            } else {
                None
            },
        }
    }

    /// Admin-only: validate and store the sale parameters, replacing any
    /// previous record, and escrow-in a hard-cap-sized supply of the sale
    /// asset from the administrator so that every possible purchase up to
    /// the hard cap is covered before the sale opens.
    pub fn set_sale_parameters(
        &mut self,
        led: &Ledger,
        caller: u64,
        start_time: u64,
        end_time: u64,
        soft_cap: u64,
        hard_cap: u64,
        min_buy: u64,
        max_buy: u64,
        tge_time: u64,
    ) -> (r: Result<Escrow, Error>)
        ensures
            match old(self).set_parameters_check(
                led.timestamp, caller,
                start_time, end_time, soft_cap, hard_cap, min_buy, max_buy, tge_time,
            ) {
                Some(e) => r == Err::<Escrow, Error>(e) && *final(self) == *old(self),
                None => r == Ok::<Escrow, Error>(Escrow {
                        direction: EscrowDirection::IntoCustody,
                        token: old(self).sale_token.unwrap(),
                        counterparty: old(self).admin.unwrap(),
                        amount: hard_cap as i128,
                    })
                    && *final(self) == (TokenSale {
                        sale_parameters: Some(SalesParameter {
                            start_time, end_time, soft_cap, hard_cap,
                            min_buy, max_buy, tge_time,
                        }),
                        ..*old(self)
                    }),
            },
    {
        let admin = match read_administrator(self) {
            Ok(a) => a,
            Err(e) => return Err(e),
        };
        if caller != admin {
            return Err(Error::Unauthorized);
        }
        if end_time <= led.timestamp
            || end_time < start_time
            || soft_cap == 0
            || hard_cap < soft_cap
            || max_buy < min_buy
            || tge_time < end_time
        {
            return Err(Error::InvalidParameters);
        }
        let token_address = match read_token(self) {
            Ok(t) => t,
            Err(e) => return Err(e),
        };
        match write_sales_parameters(
            self, led.timestamp,
            start_time, end_time, soft_cap, hard_cap, min_buy, max_buy, tge_time,
        ) {
            Ok(()) => {}
            Err(e) => return Err(e),
        }
        Ok(take_token(token_address, admin, hard_cap as i128))
    }
}

impl TokenSale {
    /// The configured sale asset.
    pub fn get_sale_token(&self) -> (r: Result<u64, Error>)
        ensures
            match self.sale_token {
                Some(t) => r == Ok::<u64, Error>(t),
                None => r == Err::<u64, Error>(Error::SaleTokenNotSet),
            },
    {
        read_token(self)
    }

    /// The exchange rate of one payment asset, renewing its lease.
    pub fn get_sale_rate(&mut self, led: &Ledger, payment_token: u64) -> (r: u64)
        ensures
            0 <= old(self).spec_rate(payment_token, led.sequence) <= u64::MAX as i128
                ==> r as i128 == old(self).spec_rate(payment_token, led.sequence),
            !(0 <= old(self).spec_rate(payment_token, led.sequence) <= u64::MAX as i128)
                ==> r == 0,
            values_preserved(
                old(self).rates.entries@, final(self).rates.entries@, led.sequence),
            *final(self) == (TokenSale { rates: final(self).rates, ..*old(self) }),
    {
        read_sale_rate(self, payment_token, led.sequence)
    }

    /// The converted purchase value of a participant's standing contribution
    /// in one asset — the contribution times the asset's rate — or
    /// `Overflow` when the product leaves the signed 128-bit range or the
    /// stored balance is not a representable non-negative amount.
    pub open spec fn payment_purchases_check(
        self,
        participant: u64,
        payment_token: u64,
        seq: u32,
    ) -> Result<int, Error> {
        let rate = if 0 <= self.spec_rate(payment_token, seq) <= u64::MAX {
            self.spec_rate(payment_token, seq) as int
        } else {
            0
        };
        let contribution = self.spec_contribution(participant, payment_token, seq);
        if contribution < 0 {
            Err(Error::Overflow)
        } else if rate * contribution > i128::MAX {
            Err(Error::Overflow)
        } else {
            Ok(rate * contribution)
        }
    }

    /// The sale-asset value of a participant's standing contribution in one
    /// asset, at the asset's current rate.
    pub fn get_payment_purchases(
        &mut self,
        led: &Ledger,
        participant: u64,
        payment_token: u64,
    ) -> (r: Result<i128, Error>)
        ensures
            match old(self).payment_purchases_check(participant, payment_token, led.sequence) {
                Ok(v) => r == Ok::<i128, Error>(v as i128),
                Err(e) => r == Err::<i128, Error>(e),
            },
            values_preserved(
                old(self).rates.entries@, final(self).rates.entries@, led.sequence),
            values_preserved(
                old(self).contributions.entries@,
                final(self).contributions.entries@,
                led.sequence,
            ),
            *final(self) == (TokenSale {
                rates: final(self).rates,
                contributions: final(self).contributions,
                ..*old(self)
            }),
    {
        let seq = led.sequence;
        let rate = read_sale_rate(self, payment_token, seq);
        let contribution = read_participant_contribution_amount(
            self, participant, payment_token, seq);
        if contribution < 0 {
            return Err(Error::Overflow);
        }
        match checked_mul_nonneg(rate as i128, contribution) {
            Some(v) => Ok(v),
            None => Err(Error::Overflow),
        }
    }

    /// The payment assets active for refund and withdrawal: those with a
    /// nonzero rate. Renews every registered rate's lease.
    pub fn get_payment_options(&mut self, led: &Ledger) -> (r: Vec<u64>)
        ensures
            r@ == old(self).spec_active(led.sequence),
            values_preserved(
                old(self).rates.entries@, final(self).rates.entries@, led.sequence),
            *final(self) == (TokenSale { rates: final(self).rates, ..*old(self) }),
    {
        read_active_payment_tokens(self, led.sequence)
    }

    /// The stored parameter record, or the all-zero default. The record is
    /// returned even after the sale's end time: callers that need an ongoing
    /// sale check the end time themselves.
    pub fn get_sales_parameters(&self) -> (r: SalesParameter)
        ensures
            r == self.spec_params(),
    {
        read_sales_parameters(self)
    }

    /// A participant's purchased sale-asset amount, renewing its lease.
    pub fn get_participant_total_purchase(&mut self, led: &Ledger, participant: u64) -> (r: i128)
        ensures
            r == old(self).spec_purchased(participant, led.sequence),
            values_preserved(
                old(self).purchases.entries@, final(self).purchases.entries@, led.sequence),
            *final(self) == (TokenSale { purchases: final(self).purchases, ..*old(self) }),
    {
        read_participant_purchase_amount(self, participant, led.sequence)
    }

    /// A participant's contribution in one asset, renewing its lease.
    pub fn get_participant_contribution(
        &mut self,
        led: &Ledger,
        participant: u64,
        payment_token: u64,
    ) -> (r: i128)
        ensures
            r == old(self).spec_contribution(participant, payment_token, led.sequence),
            values_preserved(
                old(self).contributions.entries@,
                final(self).contributions.entries@,
                led.sequence,
            ),
            *final(self) == (TokenSale {
                contributions: final(self).contributions,
                ..*old(self)
            }),
    {
        read_participant_contribution_amount(self, participant, payment_token, led.sequence)
    }

    /// The running sold total, renewing its lease.
    pub fn get_total_sold(&mut self, led: &Ledger) -> (r: i128)
        ensures
            r == old(self).spec_total_sold(led.sequence),
            final(self).spec_total_sold(led.sequence) == old(self).spec_total_sold(led.sequence),
            *final(self) == (TokenSale { total_sold: final(self).total_sold, ..*old(self) }),
    {
        read_total_sold(self, led.sequence)
    }

    /// The aggregate contribution in one asset, renewing its lease.
    pub fn get_total_contribution(&mut self, led: &Ledger, payment_token: u64) -> (r: i128)
        ensures
            r == old(self).spec_total_contribution(payment_token, led.sequence),
            values_preserved(
                old(self).total_contributions.entries@,
                final(self).total_contributions.entries@,
                led.sequence,
            ),
            *final(self) == (TokenSale {
                total_contributions: final(self).total_contributions,
                ..*old(self)
            }),
    {
        read_total_contribution(self, payment_token, led.sequence)
    }

    /// Every registered payment asset, in insertion order.
    pub fn get_supported_tokens(&self) -> (r: Vec<u64>)
        ensures
            r@ == self.payment_tokens@,
    {
        read_payment_tokens(self)
    }

    /// The designated fund recipient.
    pub fn get_fund_recipient(&self) -> (r: Result<u64, Error>)
        ensures
            match self.fund_recipient {
                Some(a) => r == Ok::<u64, Error>(a),
                None => r == Err::<u64, Error>(Error::FundRecipientNotSet),
            },
    {
        read_fund_recipient(self)
    }

    /// The stored administrator.
    pub fn get_admin(&self) -> (r: Result<u64, Error>)
        ensures
            match self.admin {
                Some(a) => r == Ok::<u64, Error>(a),
                None => r == Err::<u64, Error>(Error::NotInitialized),
            },
    {
        read_administrator(self)
    }

    /// The host's timestamp for this invocation.
    pub fn get_current_timestamp(led: &Ledger) -> (r: u64)
        ensures
            r == led.timestamp,
    {
        led.timestamp
    }
}

/// Sum of a sequence of balance-sum deltas.
pub open spec fn delta_sum(deltas: Seq<int>) -> int
    decreases deltas.len(),
{
    if deltas.len() == 0 {
        0
    } else {
        delta_sum(deltas.drop_last()) + deltas.last()
    }
}

/// Contribution accounting: across any sequence of settlements, a
/// participant's balance sum over all assets equals its starting sum plus
/// every delta applied along the way — the contributed amount of each
/// accepted contribution, per the sum clause of `contribute`, and the
/// negated escrow total of each refund, per the sum clause of
/// `claim_refund`. So what a participant holds is always what they
/// contributed minus what was refunded.
pub proof fn lemma_participant_balance_accounting(
    states: Seq<TokenSale>,
    participant: u64,
    deltas: Seq<int>,
)
    requires
        states.len() == deltas.len() + 1,
        forall|i: int| 0 <= i < deltas.len()
            ==> stored_sum_for(#[trigger] states[i + 1].contributions.entries@, participant)
                == stored_sum_for(states[i].contributions.entries@, participant) + deltas[i],
    ensures
        stored_sum_for(states.last().contributions.entries@, participant)
            == stored_sum_for(states.first().contributions.entries@, participant)
                + delta_sum(deltas),
    decreases deltas.len(),
{
    if deltas.len() == 0 {
        assert(states.last() == states.first());
    } else {
        let shorter = states.drop_last();
        assert forall|i: int| 0 <= i < deltas.drop_last().len()
            implies stored_sum_for(#[trigger] shorter[i + 1].contributions.entries@, participant)
                == stored_sum_for(shorter[i].contributions.entries@, participant)
                    + deltas.drop_last()[i] by {
            assert(shorter[i + 1] == states[i + 1]);
            assert(shorter[i] == states[i]);
        }
        lemma_participant_balance_accounting(shorter, participant, deltas.drop_last());
        assert(states[deltas.len() - 1 + 1] == states.last());
        assert(shorter.last() == states[deltas.len() - 1]);
        assert(shorter.first() == states.first());
    }
}

/// Refund and claim are mutually exclusive per sale outcome: once the sold
/// total has reached the soft cap, `claim_refund` aborts for every
/// participant, and while it has not, `claim_purchased_tokens` aborts for
/// every participant. Equality at the boundary counts as success.
pub proof fn lemma_refund_claim_exclusive(sale: TokenSale, led: Ledger, participant: u64)
    ensures
        sale.spec_successful(led.sequence)
            ==> sale.refund_check(led, participant) == Some(Error::SaleSuccessful),
        !sale.spec_successful(led.sequence)
            ==> sale.claim_check(led, participant)
                == Err::<i128, Error>(Error::SaleNotSuccessful),
{
}

/// Claiming is idempotent: a state reached by a successful claim — the
/// purchased balance zeroed, the sold total and parameters unchanged —
/// rejects a second claim by the same participant with `NothingToClaim`.
pub proof fn lemma_claim_idempotent(pre: TokenSale, post: TokenSale, led: Ledger, participant: u64)
    requires
        pre.claim_check(led, participant) is Ok,
        post.spec_purchased(participant, led.sequence) == 0,
        post.spec_total_sold(led.sequence) == pre.spec_total_sold(led.sequence),
        post.sale_parameters == pre.sale_parameters,
    ensures
        post.claim_check(led, participant) == Err::<i128, Error>(Error::NothingToClaim),
{
}

/// Refunding is idempotent: a state reached by a successful refund — every
/// active contribution of the participant zeroed or non-positive, the active
/// set, sold total and parameters unchanged — rejects a second refund by the
/// same participant with `NothingToClaim`.
pub proof fn lemma_refund_idempotent(
    pre: TokenSale,
    post: TokenSale,
    led: Ledger,
    participant: u64,
)
    requires
        pre.refund_check(led, participant) is None,
        post.spec_active(led.sequence) == pre.spec_active(led.sequence),
        forall|i: int| 0 <= i < pre.spec_active(led.sequence).len()
            ==> post.spec_contribution(participant, pre.spec_active(led.sequence)[i],
                led.sequence)
                == (if pre.spec_contribution(participant, pre.spec_active(led.sequence)[i],
                    led.sequence) > 0 { 0i128 } else {
                    pre.spec_contribution(participant, pre.spec_active(led.sequence)[i],
                        led.sequence)
                }),
        post.spec_total_sold(led.sequence) == pre.spec_total_sold(led.sequence),
        post.sale_parameters == pre.sale_parameters,
    ensures
        post.refund_check(led, participant) == Some(Error::NothingToClaim),
{
    let seq = led.sequence;
    assert forall|i: int| 0 <= i < post.spec_active(seq).len()
        implies post.spec_contribution(participant, post.spec_active(seq)[i], seq) <= 0 by {
        assert(post.spec_active(seq)[i] == pre.spec_active(seq)[i]);
    }
}

} // verus!
