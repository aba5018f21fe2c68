//! The subscriptions to browser events that an application keeps for the engine.
use vstd::prelude::*;

verus! {

/// Up to two subscriptions to browser events: one held for the step about to be
/// executed, and one for the step behind it.
pub struct Subscriptions<T> {
    /// Held for the step about to be executed, while there is a newer one.
    pub held: Option<T>,
    /// The newest one.
    pub coming: Option<T>,
}

impl<T> Subscriptions<T> {
    /// The subscriptions with a new one; the newest one so far is held or dropped.
    pub open spec fn with(self, subscription: T, hold: bool) -> Self {
        Subscriptions {
            held: if hold {
                self.coming
            } else {
                None
            },
            coming: Some(subscription),
        }
    }

    /// The subscription that is to be used first.
    pub open spec fn first(self) -> Option<T> {
        if self.held is Some {
            self.held
        } else {
            self.coming
        }
    }

    /// The subscriptions without the one that is to be used first.
    pub open spec fn without(self) -> Self {
        if self.held is Some {
            Subscriptions { held: None, coming: self.coming }
        } else {
            Subscriptions { held: None, coming: None }
        }
    }

    /// No subscriptions.
    pub fn new() -> (subscriptions: Self)
        ensures
            subscriptions.held is None,
            subscriptions.coming is None,
    {
        Subscriptions { held: None, coming: None }
    }

    /// Adds a subscription. The newest one so far is held for the step about to be
    /// executed, or dropped.
    pub fn subscribe(&mut self, subscription: T, hold: bool)
        ensures
            *final(self) == old(self).with(subscription, hold),
    {
        let newest = self.coming.take();
        self.held = if hold {
            newest
        } else {
            None
        };
        self.coming = Some(subscription);
    }

    /// Takes the subscription for the step about to be executed.
    pub fn take(&mut self) -> (subscription: Option<T>)
        ensures
            subscription == old(self).first(),
            *final(self) == old(self).without(),
    {
        if self.held.is_some() {
            self.held.take()
        } else {
            self.coming.take()
        }
    }
}

/// Subscriptions are used in the order in which they were made: one that is held comes
/// before the new one, each is used once, and one that is not held is dropped.
pub proof fn law_used_in_order<T>(kept: Subscriptions<T>, subscription: T)
    ensures
        kept.coming is Some ==> {
            &&& kept.with(subscription, true).first() == kept.coming
            &&& kept.with(subscription, true).without().first() == Some(subscription)
            &&& kept.with(subscription, true).without().without().first() is None
        },
        kept.with(subscription, false).first() == Some(subscription),
        kept.with(subscription, false).without().first() is None,
        kept.held is None && kept.coming is None ==> kept.first() is None,
{
}

} // verus!
