//! The process-wide currency counter and its two mutators.

use vstd::prelude::*;

verus! {

/// Price of one dynamite, in currency units.
pub const DYNAMITE_PRICE: u8 = 20;

/// Value credited for one collected bronze coin, in currency units.
pub const COIN_VALUE: u8 = 5;

/// The balance the world starts with.
pub const INITIAL_MONEY: u8 = 100;

/// The process-wide currency counter: an eight-bit value, so the balance
/// always lies in [0, 255]. It is changed only by `try_spend` (purchases,
/// which fail without effect when the balance is below the price) and by
/// `credit` (coin collection, which saturates at 255).
pub struct Money(pub u8);

/// What a saturating credit leaves on the counter.
pub open spec fn saturated(balance: int, amount: int) -> int {
    if balance + amount > 255 {
        255
    } else {
        balance + amount
    }
}

impl Money {
    /// Read the current balance.
    pub fn read(&self) -> (balance: u8)
        ensures
            balance == self.0,
    {
        self.0
    }

    /// Spend `price` if the balance allows it; report whether it did.
    /// On failure the balance is untouched, so it can never underflow.
    pub fn try_spend(&mut self, price: u8) -> (success: bool)
        ensures
            success == (old(self).0 >= price),
            success ==> final(self).0 == old(self).0 - price,
            !success ==> *final(self) == *old(self),
    {
        if self.0 >= price {
            self.0 = self.0 - price;
            true
        } else {
            false
        }
    }

    /// Credit `amount`, saturating at the top of the eight-bit range.
    pub fn credit(&mut self, amount: u8)
        ensures
            final(self).0 == saturated(old(self).0 as int, amount as int),
    {
        self.0 = self.0.saturating_add(amount);
    }
}

/// The balance always lies in the eight-bit range, whatever sequence of
/// reads, spends and credits produced it.
pub proof fn lemma_money_in_range(m: Money)
    ensures
        0 <= m.0 <= 255,
{
}

} // verus!
