//! RAII timers: a guard the node holds and an effect the loop schedules.
//!
//! A linked pair: a [`DropGuard`] the owning node holds inside a [`TimerGuard`], and a
//! [`TimerEffect`] a handler returns. The effect loop schedules the effect; dropping the guard
//! cancels the timer.

use crate::trigger::EventTrigger;
use std::time::Duration;
use tokio::sync::oneshot;
use vstd::prelude::*;

verus! {

#[verifier::external_type_specification]
#[verifier::external_body]
#[verifier::reject_recursive_types(T)]
pub struct ExOneshotSender<T>(oneshot::Sender<T>);

#[verifier::external_type_specification]
#[verifier::external_body]
#[verifier::reject_recursive_types(T)]
pub struct ExOneshotReceiver<T>(oneshot::Receiver<T>);

#[verifier::external_type_specification]
#[verifier::external_body]
pub struct ExOneshotRecvError(oneshot::error::RecvError);

/// Calls `tokio::sync::oneshot::channel`: a linked sender and receiver. Nothing is claimed of
/// the pair: the link between the halves is not visible to the library's contracts.
#[verifier::external_body]
fn oneshot_channel() -> (r: (oneshot::Sender<()>, oneshot::Receiver<()>)) {
    oneshot::channel()
}

/// The cancelling half of a drop pair. Dropping it closes the channel and wakes the
/// paired receiver.
pub struct DropGuard(oneshot::Sender<()>);

/// Linked guard/receiver pair. The guard goes in the node; the receiver rides the effect.
pub fn drop_guard() -> (r: (DropGuard, oneshot::Receiver<()>)) {
    let (sender, receiver) = oneshot_channel();
    (DropGuard(sender), receiver)
}

/// Identifies one timer. Minted when the timer is set and stamped on both halves, so a fired
/// event can be matched against the guard still held.
#[derive(Clone, Copy, PartialEq, Eq, Structural, Hash, Debug)]
pub struct TimerId(u64);

impl TimerId {
    pub closed spec fn raw(self) -> u64 {
        self.0
    }

    /// The id with this number. The number comes from a process-wide counter, so two timers
    /// never share one.
    pub fn from_raw(n: u64) -> (r: Self)
        ensures
            r.raw() == n,
    {
        TimerId(n)
    }
}

/// The guard for one timer: what cancels it, and which timer it is.
pub struct TimerGuard {
    id: TimerId,
    guard: DropGuard,
}

impl TimerGuard {
    /// The timer this guard cancels.
    pub closed spec fn id(&self) -> TimerId {
        self.id
    }

    /// The trigger matching this timer's own firing, and no other.
    pub fn trigger(&self) -> (r: TimerTrigger)
        ensures
            r.id() == self.id(),
    {
        TimerTrigger(self.id)
    }
}

/// A timer fired, carrying which timer it was and the payload it was armed with.
#[derive(Clone, Copy, Debug)]
pub struct TimerFired<P = ()> {
    id: TimerId,
    payload: P,
}

impl<P> TimerFired<P> {
    /// Which timer fired.
    pub closed spec fn id(&self) -> TimerId {
        self.id
    }

    /// What the timer was armed with.
    pub closed spec fn payload(&self) -> P {
        self.payload
    }

    /// The payload if `guard` is still the one this firing was armed with.
    pub fn trigger_if_matching<'a>(&'a self, guard: Option<&TimerGuard>) -> (r: Option<&'a P>)
        ensures
            r == (if guard is Some && guard->0.id() == self.id() {
                Some(&self.payload())
            } else {
                None::<&P>
            }),
    {
        match guard {
            Some(g) => if g.id == self.id {
                Some(&self.payload)
            } else {
                None
            },
            None => None,
        }
    }
}

/// Matches only the firing of the timer it was built from.
#[derive(Clone, Copy, PartialEq, Eq, Structural, Hash, Debug)]
pub struct TimerTrigger(TimerId);

impl TimerTrigger {
    pub closed spec fn id(self) -> TimerId {
        self.0
    }
}

impl EventTrigger for TimerTrigger {
    type Event = TimerFired;

    open spec fn matching(&self, ev: &TimerFired) -> bool {
        self.id() == ev.id()
    }

    fn is_matching(&self, ev: &TimerFired) -> (r: bool) {
        self.0 == ev.id
    }
}

/// The scheduling half: a delay, the firing to post, and the cancel channel.
pub struct TimerEffect<P = ()> {
    pub delay: Duration,
    pub event: TimerFired<P>,
    pub cancel: oneshot::Receiver<()>,
}

/// Build a linked guard and firing for timer `id` that completes after `delay`. Dropping the
/// guard cancels the timer. `payload` is readable later only through
/// [`TimerFired::trigger_if_matching`].
pub fn timer_effect_and_guard_with_id<P>(id: TimerId, delay: Duration, payload: P) -> (r: (TimerGuard, TimerEffect<P>))
    ensures
        r.0.id() == id,
        r.1.event.id() == id,
        r.1.event.payload() == payload,
        r.1.delay == delay,
{
    let (guard, receiver) = drop_guard();
    (TimerGuard { id, guard }, TimerEffect { delay, event: TimerFired { id, payload }, cancel: receiver })
}

/// A firing is recognised by the guard it was armed with and by no guard of another timer,
/// and the trigger built from that guard matches it.
pub proof fn law_a_firing_matches_its_own_guard(guard_id: TimerId, fired: TimerFired, trigger: TimerTrigger)
    requires
        trigger.id() == guard_id,
    ensures
        trigger.matching(&fired) <==> guard_id == fired.id(),
{
}

/// Wraps a value that carries a resource rather than data. Any two compare equal, so a type
/// containing one can still derive `PartialEq`.
pub struct AlwaysEqual<T>(pub T);

impl<T> PartialEq for AlwaysEqual<T> {
    fn eq(&self, other: &Self) -> (r: bool) {
        true
    }
}

impl<T> vstd::std_specs::cmp::PartialEqSpecImpl for AlwaysEqual<T> {
    open spec fn obeys_eq_spec() -> bool {
        true
    }

    open spec fn eq_spec(&self, other: &Self) -> bool {
        true
    }
}

impl<T> Eq for AlwaysEqual<T> {}

} // verus!
