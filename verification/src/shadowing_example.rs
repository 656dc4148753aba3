//! Example contract demonstrating variable shadowing issues.
//!
//! The `_buggy` entry points shadow variables so that what they return is
//! not what they store; the `_correct` ones use distinct names. Each entry
//! point takes the storage slots it touches and returns what the contract
//! returns.
use vstd::prelude::*;

verus! {

/// The contract's storage slots used by the examples.
pub struct ShadowingExample {
    /// The balance stored for the user in question.
    pub balance: Option<i128>,
    /// The `last_tx` entry.
    pub last_tx: Option<i128>,
    /// The `last_i` entry.
    pub last_i: Option<i32>,
    /// The `opt_val` entry.
    pub opt_val: Option<i128>,
}

/// `0 + 1 + .. + (count - 1)`.
pub open spec fn sum_below(count: nat) -> nat
    decreases count,
{
    if count == 0 {
        0
    } else {
        sum_below((count - 1) as nat) + (count - 1) as nat
    }
}

proof fn lemma_sum_below_monotonic(a: nat, b: nat)
    requires
        a <= b,
    ensures
        sum_below(a) <= sum_below(b),
    decreases b,
{
    if a < b {
        lemma_sum_below_monotonic(a, (b - 1) as nat);
    }
}

impl ShadowingExample {
    /// Storage with no entries.
    pub fn empty() -> (r: Self)
        ensures
            r.balance is None && r.last_tx is None && r.last_i is None && r.opt_val is None,
    {
        ShadowingExample { balance: None, last_tx: None, last_i: None, opt_val: None }
    }

    /// The stored balance (0 when none is stored).
    pub fn get_balance(&self) -> (r: i128)
        ensures
            r == match self.balance {
                Some(b) => b,
                None => 0,
            },
    {
        match self.balance {
            Some(b) => b,
            None => 0,
        }
    }

    /// Example 1: simple shadowing in a nested block. Stores `amount` as the
    /// balance but returns the balance from before (the bug).
    pub fn update_balance_buggy(&mut self, amount: i128) -> (r: i128)
        ensures
            r == match old(self).balance {
                Some(b) => b,
                None => 0,
            },
            final(self).balance == Some(amount),
            final(self).last_tx == old(self).last_tx,
            final(self).last_i == old(self).last_i,
            final(self).opt_val == old(self).opt_val,
    {
        let balance = self.get_balance();
        {
            let balance = amount;
            self.balance = Some(balance);
        }
        balance
    }

    /// Example 2: shadowing in conditional blocks. Stores `amount + fee`
    /// (or `amount` when `fee <= 0`) but returns `amount` (the bug).
    pub fn process_transaction_buggy(&mut self, amount: i128, fee: i128) -> (r: i128)
        requires
            fee > 0 ==> amount + fee <= i128::MAX,
        ensures
            r == amount,
            final(self).last_tx == Some(if fee > 0 { (amount + fee) as i128 } else { amount }),
            final(self).balance == old(self).balance,
            final(self).last_i == old(self).last_i,
            final(self).opt_val == old(self).opt_val,
    {
        let total = amount;
        if fee > 0 {
            let total = amount + fee;
            self.last_tx = Some(total);
        } else {
            let total = amount;
            self.last_tx = Some(total);
        }
        total
    }

    /// Example 3: shadowing by a loop variable. Returns
    /// `0 + 1 + .. + (count - 1)` and stores the outer `i`, still 100.
    pub fn calculate_sum_buggy(&mut self, count: u32) -> (r: u32)
        requires
            sum_below(count as nat) <= u32::MAX,
        ensures
            r == sum_below(count as nat),
            final(self).last_i == Some(100i32),
            final(self).balance == old(self).balance,
            final(self).last_tx == old(self).last_tx,
            final(self).opt_val == old(self).opt_val,
    {
        let i: i32 = 100;
        let mut sum: u32 = 0;
        for i in 0..count
            invariant
                sum == sum_below(i as nat),
                sum_below(count as nat) <= u32::MAX,
        {
            proof {
                lemma_sum_below_monotonic((i + 1) as nat, count as nat);
            }
            sum += i;
        }
        self.last_i = Some(i);
        sum
    }

    /// Example 4: shadowing in a match arm. Returns the given value, or 42
    /// when there is none; stores the given value only.
    pub fn handle_option_buggy(&mut self, opt: Option<i128>) -> (r: i128)
        ensures
            r == match opt {
                Some(v) => v,
                None => 42,
            },
            final(self).opt_val == match opt {
                Some(v) => Some(v),
                None => old(self).opt_val,
            },
            final(self).balance == old(self).balance,
            final(self).last_tx == old(self).last_tx,
            final(self).last_i == old(self).last_i,
    {
        let value: i128 = 42;
        match opt {
            Some(value) => {
                self.opt_val = Some(value);
                value
            },
            None => value,
        }
    }

    /// Example 5: stores `amount` as the balance and returns it.
    pub fn update_balance_correct(&mut self, amount: i128) -> (r: i128)
        ensures
            r == amount,
            final(self).balance == Some(amount),
            final(self).last_tx == old(self).last_tx,
            final(self).last_i == old(self).last_i,
            final(self).opt_val == old(self).opt_val,
    {
        let _old_balance = self.get_balance();
        {
            let new_balance = amount;
            self.balance = Some(new_balance);
        }
        amount
    }

    /// Example 6: stores and returns `amount + fee` (or `amount` when
    /// `fee <= 0`).
    pub fn process_transaction_correct(&mut self, amount: i128, fee: i128) -> (r: i128)
        requires
            fee > 0 ==> amount + fee <= i128::MAX,
        ensures
            r == if fee > 0 { (amount + fee) as i128 } else { amount },
            final(self).last_tx == Some(r),
            final(self).balance == old(self).balance,
            final(self).last_i == old(self).last_i,
            final(self).opt_val == old(self).opt_val,
    {
        let _base_amount = amount;
        let final_total = if fee > 0 {
            let total_with_fee = amount + fee;
            self.last_tx = Some(total_with_fee);
            total_with_fee
        } else {
            let total_no_fee = amount;
            self.last_tx = Some(total_no_fee);
            total_no_fee
        };
        final_total
    }
}

} // verus!
