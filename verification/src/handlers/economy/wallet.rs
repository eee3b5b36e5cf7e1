//! Per-(guild, user) wallet records.
//!
//! A wallet holds a non-negative balance that grows by `deposit` and shrinks
//! by `spend`; `spend` fails with `InsufficientFunds` and leaves the wallet
//! untouched when the balance does not cover the amount. The caller persists
//! the record after every successful mutation.

use vstd::prelude::*;

verus! {

/// The persisted content of a wallet record.
#[derive(Clone, Copy, Debug)]
pub struct WalletData {
    pub guild_id: u64,
    pub user_id: u64,
    pub balance: u64,
}

/// A wallet record for one user in one guild.
#[derive(Clone, Copy, Debug)]
pub struct Wallet {
    pub data: WalletData,
}

/// The wallet `w` after depositing `amount`.
pub open spec fn deposited(w: Wallet, amount: u64) -> Wallet {
    Wallet {
        data: WalletData { balance: (w.data.balance + amount) as u64, ..w.data },
    }
}

/// The wallet `w` after spending `amount`; only meaningful when
/// `amount <= w.data.balance`.
pub open spec fn spent(w: Wallet, amount: u64) -> Wallet {
    Wallet {
        data: WalletData { balance: (w.data.balance - amount) as u64, ..w.data },
    }
}

impl Wallet {
    /// A fresh wallet, as created on first access: the given identity and a
    /// zero balance.
    pub fn new(guild_id: u64, user_id: u64) -> (w: Wallet)
        ensures
            w.data.guild_id == guild_id,
            w.data.user_id == user_id,
            w.data.balance == 0,
    {
        Wallet { data: WalletData { guild_id, user_id, balance: 0 } }
    }

    /// Deposits the given amount into the wallet.
    pub fn deposit(&mut self, amount: u64)
        requires
            old(self).data.balance + amount <= u64::MAX,
        ensures
            *final(self) == deposited(*old(self), amount),
    {
        self.data.balance = self.data.balance + amount;
    }

    /// Spends the given amount from the wallet. Fails, changing nothing,
    /// when the balance does not cover it.
    pub fn spend(&mut self, amount: u64) -> (r: Result<(), WalletError>)
        ensures
            amount <= old(self).data.balance ==> r is Ok && *final(self) == spent(
                *old(self),
                amount,
            ),
            amount > old(self).data.balance ==> r == Result::<(), WalletError>::Err(
                WalletError::InsufficientFunds,
            ) && *final(self) == *old(self),
    {
        match self.data.balance.checked_sub(amount) {
            Some(rest) => {
                self.data.balance = rest;
                Ok(())
            },
            None => Err(WalletError::InsufficientFunds),
        }
    }

    /// The balance of the wallet.
    pub fn balance(&self) -> (b: u64)
        ensures
            b == self.data.balance,
    {
        self.data.balance
    }
}

/// Failures of wallet operations. Storage failures are mapped to a library
/// error by the shell that owns the database connection.
#[derive(Clone, Copy, Debug, PartialEq, Eq, Structural)]
pub enum WalletError {
    /// A record that should have been created was not returned.
    NotCreated(u64, u64),
    /// The balance does not cover the requested amount.
    InsufficientFunds,
}

/// Spending an affordable amount and depositing it back restores the wallet
/// exactly.
pub proof fn lemma_spend_then_deposit_restores(w: Wallet, amount: u64)
    requires
        amount <= w.data.balance,
    ensures
        deposited(spent(w, amount), amount) == w,
{
}

/// Deposits commute: depositing `x` then `y` yields the same wallet as
/// depositing `y` then `x`.
pub proof fn lemma_deposits_commute(w: Wallet, x: u64, y: u64)
    requires
        w.data.balance + x + y <= u64::MAX,
    ensures
        deposited(deposited(w, x), y) == deposited(deposited(w, y), x),
{
}

} // verus!
