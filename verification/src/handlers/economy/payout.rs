//! Per-(guild, user) payout records.
//!
//! A payout accumulates salary deposits and can be claimed into the user's
//! wallet once per claim interval. Claiming drains the payout balance into
//! the wallet, stamps the claim time, and returns a receipt; the two
//! user-visible failure states (`TooSoon`, `NothingToClaim`) leave both
//! records untouched.

use vstd::prelude::*;

use super::wallet::{deposited, Wallet, WalletError};

verus! {

/// The least time between two claims, in milliseconds: five minutes.
pub const PAYOUT_INTERVAL_MS: i64 = 1000 * 60 * 5;

/// The persisted content of a payout record. Timestamps are Unix
/// milliseconds.
#[derive(Clone, Copy, Debug)]
pub struct PayoutData {
    pub guild_id: u64,
    pub user_id: u64,
    pub balance: u64,
    pub last_payout_ms: i64,
}

/// A payout record for one user in one guild.
#[derive(Clone, Copy, Debug)]
pub struct Payout {
    pub data: PayoutData,
}

/// The receipt of a successful claim.
#[derive(Clone, Copy, Debug)]
pub struct ClaimResult {
    pub amount_claimed: u64,
    pub new_balance: u64,
}

/// Failures of payout operations. Storage failures are mapped to a library
/// error by the shell that owns the database connection.
#[derive(Clone, Copy, Debug, PartialEq, Eq, Structural)]
pub enum PayoutError {
    /// A record that should have been created was not returned.
    NotCreated(u64, u64),
    /// The claim interval has not elapsed since the last claim.
    TooSoon,
    /// The payout balance is zero.
    NothingToClaim,
    /// The wallet half of a claim failed.
    Wallet(WalletError),
}

/// The payout `p` after accumulating `amount`.
pub open spec fn accumulated(p: Payout, amount: u64) -> Payout {
    Payout {
        data: PayoutData { balance: (p.data.balance + amount) as u64, ..p.data },
    }
}

/// The payout `p` after a successful claim at time `now_ms`: drained and
/// restamped.
pub open spec fn drained(p: Payout, now_ms: i64) -> Payout {
    Payout {
        data: PayoutData { balance: 0, last_payout_ms: now_ms, ..p.data },
    }
}

/// What a claim at time `now_ms` does: the payout and wallet afterwards and
/// the returned receipt or failure.
pub open spec fn claim_transition(p: Payout, w: Wallet, now_ms: i64) -> (
    Payout,
    Wallet,
    Result<ClaimResult, PayoutError>,
) {
    if now_ms < p.data.last_payout_ms + PAYOUT_INTERVAL_MS {
        (p, w, Err(PayoutError::TooSoon))
    } else if p.data.balance == 0 {
        (p, w, Err(PayoutError::NothingToClaim))
    } else {
        (
            drained(p, now_ms),
            deposited(w, p.data.balance),
            Ok(
                ClaimResult {
                    amount_claimed: p.data.balance,
                    new_balance: (w.data.balance + p.data.balance) as u64,
                },
            ),
        )
    }
}

impl Payout {
    /// A fresh payout, as created on first access: zero balance, with the
    /// last claim backdated by one full interval so deposits are immediately
    /// claimable once the balance is positive.
    pub fn new(guild_id: u64, user_id: u64, now_ms: i64) -> (p: Payout)
        requires
            i64::MIN + PAYOUT_INTERVAL_MS <= now_ms,
        ensures
            p.data.guild_id == guild_id,
            p.data.user_id == user_id,
            p.data.balance == 0,
            p.data.last_payout_ms == now_ms - PAYOUT_INTERVAL_MS,
    {
        Payout {
            data: PayoutData {
                guild_id,
                user_id,
                balance: 0,
                last_payout_ms: now_ms - PAYOUT_INTERVAL_MS,
            },
        }
    }

    /// The earliest time at which the payout can next be claimed.
    pub fn next_payout_time(&self) -> (t: i64)
        requires
            self.data.last_payout_ms + PAYOUT_INTERVAL_MS <= i64::MAX,
        ensures
            t == self.data.last_payout_ms + PAYOUT_INTERVAL_MS,
    {
        self.data.last_payout_ms + PAYOUT_INTERVAL_MS
    }

    /// Adds the given amount to the pending payout.
    pub fn deposit(&mut self, amount: u64)
        requires
            old(self).data.balance + amount <= u64::MAX,
        ensures
            *final(self) == accumulated(*old(self), amount),
    {
        self.data.balance = self.data.balance + amount;
    }

    /// Drains the payout into the user's wallet for the same guild.
    ///
    /// Fails with `TooSoon` while the claim interval has not elapsed, and
    /// otherwise with `NothingToClaim` on a zero balance; both failures
    /// leave payout and wallet unchanged. Otherwise the whole payout balance
    /// moves into the wallet, the claim time advances to `now_ms`, and the
    /// receipt carries the amount moved and the new wallet balance.
    pub fn claim_to_wallet(&mut self, wallet: &mut Wallet, now_ms: i64) -> (r: Result<
        ClaimResult,
        PayoutError,
    >)
        requires
            old(wallet).data.guild_id == old(self).data.guild_id,
            old(wallet).data.user_id == old(self).data.user_id,
            old(self).data.last_payout_ms + PAYOUT_INTERVAL_MS <= i64::MAX,
            old(wallet).data.balance + old(self).data.balance <= u64::MAX,
        ensures
            (*final(self), *final(wallet), r) == claim_transition(
                *old(self),
                *old(wallet),
                now_ms,
            ),
    {
        if now_ms < self.next_payout_time() {
            Err(PayoutError::TooSoon)
        } else if self.data.balance == 0 {
            Err(PayoutError::NothingToClaim)
        } else {
            let amount_claimed = self.data.balance;
            wallet.deposit(amount_claimed);
            self.data.balance = 0;
            self.data.last_payout_ms = now_ms;
            Ok(ClaimResult { amount_claimed, new_balance: wallet.balance() })
        }
    }
}

/// Claiming from an empty payout never changes any state, and once the
/// claim interval has elapsed it reports `NothingToClaim`. (Before that the
/// report is `TooSoon`, which is also a no-op.)
pub proof fn lemma_claim_empty_is_noop(p: Payout, w: Wallet, now_ms: i64)
    requires
        p.data.balance == 0,
    ensures
        claim_transition(p, w, now_ms).0 == p,
        claim_transition(p, w, now_ms).1 == w,
        now_ms >= p.data.last_payout_ms + PAYOUT_INTERVAL_MS ==> claim_transition(
            p,
            w,
            now_ms,
        ).2 == Result::<ClaimResult, PayoutError>::Err(PayoutError::NothingToClaim),
{
}

/// A claim fails with `TooSoon` exactly while the interval has not elapsed,
/// and, given a positive balance, succeeds exactly at and after the
/// boundary.
pub proof fn lemma_claim_interval_boundary(p: Payout, w: Wallet, now_ms: i64)
    ensures
        now_ms < p.data.last_payout_ms + PAYOUT_INTERVAL_MS <==> claim_transition(
            p,
            w,
            now_ms,
        ).2 == Result::<ClaimResult, PayoutError>::Err(PayoutError::TooSoon),
        now_ms >= p.data.last_payout_ms + PAYOUT_INTERVAL_MS && p.data.balance > 0
            <==> claim_transition(p, w, now_ms).2 is Ok,
{
}

} // verus!
