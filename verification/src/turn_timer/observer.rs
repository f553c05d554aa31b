//! Notifier and subscriber, joined by one channel per registration.

use std::sync::mpsc::{Receiver, Sender};
use vstd::prelude::*;

verus! {

/// Receives what a [`Notifier`] sends, over a channel of its own.
pub trait Subscriber<T: Clone> {
    /// Whether a receiving end has been handed to this subscriber. An
    /// implementation says what that means for it; where it says nothing,
    /// nothing is known.
    open spec fn has_subscription(&self) -> bool {
        arbitrary()
    }

    /// Looks for a message, without waiting, and takes note of it.
    fn update(&mut self)
        ensures
            final(self).has_subscription() == old(self).has_subscription(),
    ;

    /// Takes the receiving end of the channel made for this subscriber.
    fn add_subscription(&mut self, reciever: Receiver<T>)
        ensures
            final(self).has_subscription(),
    ;
}

/// Sends a message to every registered subscriber.
pub trait Notifier<T: Clone> {
    /// The sending ends registered so far, in the order of registration. An
    /// implementation says where it keeps them; where it says nothing,
    /// nothing is known.
    open spec fn registered(&self) -> Seq<Sender<T>> {
        arbitrary()
    }

    /// The list of sending ends, to be added to.
    fn set_subscribers(&mut self) -> (list: &mut Vec<Sender<T>>)
        ensures
            list@ == old(self).registered(),
            final(self).registered() == final(list)@,
    ;

    /// The list of sending ends.
    fn subscribers(&self) -> (list: &Vec<Sender<T>>)
        ensures
            list@ == self.registered(),
    ;

    /// Registers a subscriber: makes a channel for it alone, keeps the
    /// sending end at the end of the list and hands over the receiving end.
    fn add_subscriber<S: Subscriber<T>>(&mut self, subscriber: &mut S)
        ensures
            final(self).registered().len() == old(self).registered().len() + 1,
            final(self).registered().drop_last() == old(self).registered(),
            final(subscriber).has_subscription(),
    {
        let (notifier_sender, notifier_receiver) = std::sync::mpsc::channel::<T>();
        let ghost before = self.registered();
        let list = self.set_subscribers();
        list.push(notifier_sender);
        assert(final(list)@.drop_last() =~= before);
        subscriber.add_subscription(notifier_receiver);
    }

    /// Sends a copy of `context` to every registered subscriber, once each.
    /// A subscriber that is gone is passed over and counted: the result is
    /// the number of subscribers that the message did not reach.
    fn notify(&self, context: &T) -> (undelivered: usize)
        ensures
            undelivered <= self.registered().len(),
    {
        let list = self.subscribers();
        let mut undelivered: usize = 0;
        let mut i: usize = 0;
        while i < list.len()
            invariant
                i <= list@.len(),
                undelivered <= i,
            decreases list@.len() - i,
        {
            if list[i].send(context.clone()).is_err() {
                undelivered += 1;
            }
            i += 1;
        }
        undelivered
    }
}

} // verus!
