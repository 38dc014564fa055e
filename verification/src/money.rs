//! The money ledger, in cents, and the per-frame "money earned" queue.
//!
//! Pigs that live out their lifetime do not touch the balance directly: they
//! append a notification to a queue, and exactly one consumer drains the
//! queue each frame and credits the ledger.

use vstd::prelude::*;

verus! {

/// The session's single money balance, in cents.
#[derive(Clone, Copy, Debug, PartialEq, Eq, Structural)]
pub struct Money(pub u64);

/// A one-frame notification that a pig paid out, carrying the amount in
/// cents.
#[derive(Clone, Copy, Debug, PartialEq, Eq, Structural)]
pub struct MoneyEarnedEvent(pub u64);

/// The summed amount, in cents, carried by a queue of notifications.
pub open spec fn total_amount(s: Seq<MoneyEarnedEvent>) -> int
    decreases s.len(),
{
    if s.len() == 0 {
        0
    } else {
        total_amount(s.drop_last()) + s.last().0
    }
}

impl Money {
    /// Adds `amount` cents to the balance.
    pub fn credit(&mut self, amount: u64)
        requires
            old(self).0 + amount <= u64::MAX,
        ensures
            final(self).0 == old(self).0 + amount,
    {
        self.0 = self.0 + amount;
    }

    /// Removes `amount` cents from the balance; the caller has already
    /// checked that the balance covers it.
    pub fn debit(&mut self, amount: u64)
        requires
            old(self).0 >= amount,
        ensures
            final(self).0 == old(self).0 - amount,
    {
        self.0 = self.0 - amount;
    }
}

/// Drains the notification queue into the ledger: every queued amount is
/// credited exactly once, and the queue is left empty, so a notification
/// can never be replayed.
pub fn give_money(events: &mut Vec<MoneyEarnedEvent>, money: &mut Money)
    requires
        old(money).0 + total_amount(old(events)@) <= u64::MAX,
    ensures
        final(events)@.len() == 0,
        final(money).0 == old(money).0 + total_amount(old(events)@),
{
    proof {
        lemma_total_amount_nonneg(events@);
    }
    loop
        invariant
            money.0 + total_amount(events@) == old(money).0 + total_amount(old(events)@),
            money.0 + total_amount(events@) <= u64::MAX,
        ensures
            events@.len() == 0,
            money.0 == old(money).0 + total_amount(old(events)@),
        decreases events@.len(),
    {
        proof {
            lemma_total_amount_nonneg(events@);
        }
        let next = events.pop();
        match next {
            Some(event) => {
                proof {
                    lemma_total_amount_nonneg(events@);
                }
                money.credit(event.0);
            },
            None => {
                break;
            },
        }
    }
}

/// Every notification carries a non-negative amount, so so does the sum.
pub proof fn lemma_total_amount_nonneg(s: Seq<MoneyEarnedEvent>)
    ensures
        total_amount(s) >= 0,
    decreases s.len(),
{
    if s.len() > 0 {
        lemma_total_amount_nonneg(s.drop_last());
    }
}

} // verus!
