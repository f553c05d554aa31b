//! The timer of one turn and the handle through which its end is seen.

use std::sync::mpsc::{Receiver, Sender};
use vstd::prelude::*;

pub use crate::turn_timer::observer::{Notifier, Subscriber};

verus! {

/// Whether the turn's time is up.
#[derive(Clone, Copy, PartialEq, Eq, Structural, Debug)]
pub enum TimerStatus {
    TimerNotComplete,
    TimerComplete,
}

/// The status a subscriber holds after a look at its channel: complete once
/// it was complete or a completion was received, and not before.
pub open spec fn latched(current: TimerStatus, received: Option<TimerStatus>) -> TimerStatus {
    if current is TimerComplete || received == Some(TimerStatus::TimerComplete) {
        TimerStatus::TimerComplete
    } else {
        TimerStatus::TimerNotComplete
    }
}

/// The status after a look at the channel that gave `received`.
pub fn latch(current: TimerStatus, received: Option<TimerStatus>) -> (next: TimerStatus)
    ensures
        next == latched(current, received),
{
    match current {
        TimerStatus::TimerComplete => TimerStatus::TimerComplete,
        TimerStatus::TimerNotComplete => match received {
            Some(TimerStatus::TimerComplete) => TimerStatus::TimerComplete,
            _ => TimerStatus::TimerNotComplete,
        },
    }
}

/// The status after a series of looks at the channel, in order.
pub open spec fn status_after(current: TimerStatus, looks: Seq<Option<TimerStatus>>) -> TimerStatus
    decreases looks.len(),
{
    if looks.len() == 0 {
        current
    } else {
        latched(status_after(current, looks.drop_last()), looks.last())
    }
}

/// A status never goes back: once complete, it is complete after every
/// further look, whatever the channel gives; and if it is complete after
/// some looks, it is complete after any more.
pub proof fn lemma_status_never_reverts(
    current: TimerStatus,
    looks: Seq<Option<TimerStatus>>,
    n: int,
)
    requires
        0 <= n <= looks.len(),
    ensures
        current is TimerComplete ==> status_after(current, looks) is TimerComplete,
        status_after(current, looks.take(n)) is TimerComplete ==> status_after(
            current,
            looks,
        ) is TimerComplete,
    decreases looks.len(),
{
    if looks.len() > 0 {
        if n < looks.len() {
            lemma_status_never_reverts(current, looks.drop_last(), n);
            assert(looks.drop_last().take(n) =~= looks.take(n));
        } else {
            lemma_status_never_reverts(current, looks.drop_last(), n - 1);
            assert(looks.take(n) =~= looks);
        }
    } else {
        assert(looks.take(n) =~= looks);
    }
}

/// A status becomes complete exactly when the first completion is
/// received: it is complete after a series of looks if and only if it was
/// complete before or one of the looks gave a completion.
pub proof fn lemma_status_completes_once(current: TimerStatus, looks: Seq<Option<TimerStatus>>)
    ensures
        status_after(current, looks) is TimerComplete <==> (current is TimerComplete || exists|
            i: int,
        |
            0 <= i < looks.len() && #[trigger] looks[i] == Some(TimerStatus::TimerComplete)),
    decreases looks.len(),
{
    if looks.len() > 0 {
        let earlier = looks.drop_last();
        lemma_status_completes_once(current, earlier);
        if exists|i: int|
            0 <= i < earlier.len() && #[trigger] earlier[i] == Some(TimerStatus::TimerComplete) {
            let i = choose|i: int|
                0 <= i < earlier.len() && #[trigger] earlier[i] == Some(
                    TimerStatus::TimerComplete,
                );
            assert(looks[i] == Some(TimerStatus::TimerComplete));
        }
        if exists|i: int|
            0 <= i < looks.len() && #[trigger] looks[i] == Some(TimerStatus::TimerComplete) {
            let i = choose|i: int|
                0 <= i < looks.len() && #[trigger] looks[i] == Some(TimerStatus::TimerComplete);
            if i < earlier.len() {
                assert(earlier[i] == Some(TimerStatus::TimerComplete));
            }
        }
    }
}

/// A timer that fires once, after a fixed time, and tells every registered
/// subscriber.
pub struct TurnTimer {
    timer_duration: u64,
    subscribers: Vec<Sender<TimerStatus>>,
}

impl TurnTimer {
    /// The time the timer waits before it fires, in milliseconds.
    pub closed spec fn duration(&self) -> u64 {
        self.timer_duration
    }

    /// A timer that has not been started and has no subscriber.
    pub fn new(timer_duration: u64) -> (timer: TurnTimer)
        ensures
            timer.duration() == timer_duration,
            timer.registered().len() == 0,
    {
        Self { timer_duration, subscribers: Vec::new() }
    }

    /// The time the timer waits before it fires, in milliseconds.
    pub fn timer_duration(&self) -> (duration: u64)
        ensures
            duration == self.duration(),
    {
        self.timer_duration
    }

    /// How many subscribers are registered.
    pub fn subscriber_count(&self) -> (count: usize)
        ensures
            count == self.registered().len(),
    {
        self.subscribers.len()
    }

    /// Fires the timer: sends `TimerComplete` to every registered
    /// subscriber, once each. The timer is used up. The result is the number
    /// of subscribers that were gone.
    pub fn complete(self) -> (undelivered: usize)
        ensures
            undelivered <= self.registered().len(),
    {
        self.notify(&TimerStatus::TimerComplete)
    }
}

impl Notifier<TimerStatus> for TurnTimer {
    closed spec fn registered(&self) -> Seq<Sender<TimerStatus>> {
        self.subscribers@
    }

    fn subscribers(&self) -> (list: &Vec<Sender<TimerStatus>>) {
        &self.subscribers
    }

    fn set_subscribers(&mut self) -> (list: &mut Vec<Sender<TimerStatus>>)
        ensures
            final(self).duration() == old(self).duration(),
    {
        &mut self.subscribers
    }
}

/// Watches one timer. Its status is latched: once it has seen the timer
/// complete, it reports complete for good.
pub struct TurnTimerSubscriber {
    timer_status: TimerStatus,
    subscription: Option<Receiver<TimerStatus>>,
}

impl TurnTimerSubscriber {
    /// The status the subscriber holds.
    pub closed spec fn status(&self) -> TimerStatus {
        self.timer_status
    }

    /// A subscriber that watches no timer yet and has seen nothing complete.
    pub fn new() -> (subscriber: TurnTimerSubscriber)
        ensures
            subscriber.status() is TimerNotComplete,
            !subscriber.has_subscription(),
    {
        Self { timer_status: TimerStatus::TimerNotComplete, subscription: None }
    }

    /// The status the subscriber holds, without a look at the channel.
    pub fn timer_status(&self) -> (status: TimerStatus)
        ensures
            status == self.status(),
    {
        self.timer_status
    }

    /// Whether the turn's time is up. Once the answer was `TimerComplete` it
    /// stays so, and the channel is not looked at again. Before that the
    /// channel is looked at, without waiting, and a completion found there is
    /// kept. A subscriber that watches no timer keeps its status.
    pub fn get_timer_status(&mut self) -> (status: TimerStatus)
        ensures
            status == final(self).status(),
            final(self).has_subscription() == old(self).has_subscription(),
            old(self).status() is TimerComplete ==> status is TimerComplete,
            !old(self).has_subscription() ==> status == old(self).status(),
    {
        match self.timer_status {
            TimerStatus::TimerComplete => TimerStatus::TimerComplete,
            TimerStatus::TimerNotComplete => {
                self.update();
                self.timer_status
            },
        }
    }
}

impl Subscriber<TimerStatus> for TurnTimerSubscriber {
    closed spec fn has_subscription(&self) -> bool {
        self.subscription is Some
    }

    fn update(&mut self)
        ensures
            old(self).status() is TimerComplete ==> final(self).status() is TimerComplete,
            !old(self).has_subscription() ==> final(self).status() == old(self).status(),
    {
        let received = match &self.subscription {
            Some(subscription) => match subscription.try_recv() {
                Ok(status) => Some(status),
                Err(_) => None,
            },
            None => None,
        };
        self.timer_status = latch(self.timer_status, received);
    }

    fn add_subscription(&mut self, reciever: Receiver<TimerStatus>)
        ensures
            final(self).status() == old(self).status(),
    {
        self.subscription = Some(reciever);
    }
}

/// Anything that can say whether the turn's time is up.
pub trait TurnTimerSubscriberTrait {
    /// Whether the turn's time is up.
    fn get_timer_status(&mut self) -> TimerStatus;
}

impl TurnTimerSubscriberTrait for TurnTimerSubscriber {
    /// The subscriber's own answer: the status it holds afterwards, latched
    /// as [`TurnTimerSubscriber::get_timer_status`] says.
    fn get_timer_status(&mut self) -> (status: TimerStatus)
        ensures
            status == final(self).status(),
            final(self).has_subscription() == old(self).has_subscription(),
            old(self).status() is TimerComplete ==> status is TimerComplete,
            !old(self).has_subscription() ==> status == old(self).status(),
    {
        TurnTimerSubscriber::get_timer_status(self)
    }
}

} // verus!
