//! Custody primitive: an explicit ledger of protocol-held balances, one
//! bucket per vault. The core decides amounts; a balance can never go
//! negative, and every payout path clamps what it moves to what the bucket
//! actually holds.

use vstd::prelude::*;

verus! {

/// A program-owned custody bucket with a directly tracked balance.
#[derive(Clone, Copy, Debug, PartialEq, Eq, Structural)]
pub struct VaultAccount {
    pub balance: u64,
}

impl VaultAccount {
    /// A freshly provisioned, empty custody bucket.
    pub fn new() -> (v: VaultAccount)
        ensures
            v.balance == 0,
    {
        VaultAccount { balance: 0 }
    }

    /// Credits a deposit to this bucket.
    pub fn credit(&mut self, amount: u64)
        requires
            old(self).balance + amount <= u64::MAX,
        ensures
            final(self).balance == old(self).balance + amount,
    {
        self.balance = self.balance + amount;
    }

    /// Debits an amount the bucket is known to hold.
    pub fn debit(&mut self, amount: u64)
        requires
            amount <= old(self).balance,
        ensures
            final(self).balance == old(self).balance - amount,
    {
        self.balance = self.balance - amount;
    }

    /// Pays out at most `amount`, clamped to the live balance; returns what
    /// was actually moved out. The clamp tolerates accounting drift without
    /// ever attempting to move more than the bucket holds.
    pub fn withdraw_clamped(&mut self, amount: u64) -> (paid: u64)
        ensures
            paid == if amount <= old(self).balance { amount as int } else {
                old(self).balance as int
            },
            final(self).balance == old(self).balance - paid,
    {
        let paid = if amount <= self.balance {
            amount
        } else {
            self.balance
        };
        self.balance = self.balance - paid;
        paid
    }
}

} // verus!
