//! Trigger matching and the one-claim-per-dispatch gate of the binding layer.

use std::collections::HashSet;
use std::hash::Hash;
use vstd::prelude::*;
use vstd::std_specs::hash::obeys_key_model;

verus! {

/// Whether this trigger matches a source event. Type matching is done by the caller; this is the
/// value match.
pub trait EventTrigger {
    type Event;

    /// What `is_matching` answers for `event`.
    spec fn matching(&self, event: &Self::Event) -> bool;

    fn is_matching(&self, event: &Self::Event) -> (r: bool)
        ensures
            r == self.matching(event),
    ;
}

/// `None` matches nothing; `Some(t)` matches what `t` matches.
impl<T: EventTrigger> EventTrigger for Option<T> {
    type Event = T::Event;

    open spec fn matching(&self, event: &T::Event) -> bool {
        match self {
            Some(t) => t.matching(event),
            None => false,
        }
    }

    fn is_matching(&self, event: &T::Event) -> (r: bool) {
        match self {
            Some(t) => t.is_matching(event),
            None => false,
        }
    }
}

/// One exclusive bind handler per dispatch. The slot is private so a handler cannot un-claim
/// or skip the claim test.
pub struct Claim<'c> {
    slot: &'c mut Option<()>,
}

impl<'c> Claim<'c> {
    /// The slot this claim reads and takes.
    pub closed spec fn slot_ref(&self) -> &'c mut Option<()> {
        self.slot
    }

    /// Whether some handler has already taken this dispatch's claim: the slot holds the mark.
    pub open spec fn taken(&self) -> bool {
        (*self.slot_ref()).is_some()
    }

    /// A claim over `slot`: taken exactly when the slot already holds the mark, and what the
    /// slot holds once the claim is done with is what the claim left in it.
    pub fn new(slot: &'c mut Option<()>) -> (c: Self)
        ensures
            *c.slot_ref() == *old(slot),
            *final(c.slot_ref()) == *final(slot),
    {
        Claim { slot }
    }

    pub fn is_taken(&self) -> (r: bool)
        ensures
            r == self.taken(),
    {
        self.slot.is_some()
    }

    /// Take the claim: `Some(())` for the first taker, `None` for every later one. The slot
    /// holds the mark afterwards either way.
    pub fn try_take(&mut self) -> (r: Option<()>)
        ensures
            r.is_some() == !old(self).taken(),
            *final(self).slot_ref() == Some(()),
            *final(final(self).slot_ref()) == *final(old(self).slot_ref()),
    {
        if self.slot.is_some() {
            None
        } else {
            *self.slot = Some(());
            Some(())
        }
    }

    /// Fresh `Claim` over the same slot: it sees what this claim sees, and what is taken
    /// through it is taken for this claim too.
    pub fn reborrow(&mut self) -> (c: Claim<'_>)
        ensures
            *c.slot_ref() == *old(self).slot_ref(),
            *final(c.slot_ref()) == *final(self).slot_ref(),
            *final(final(self).slot_ref()) == *final(old(self).slot_ref()),
    {
        Claim { slot: &mut *self.slot }
    }
}

/// A claim done with leaves its slot as it last saw it.
pub proof fn lemma_resolved_claim_keeps_its_slot(c: Claim)
    requires
        has_resolved(c),
    ensures
        *final(c.slot_ref()) == *c.slot_ref(),
{
    assert(has_resolved(c.slot));
}

/// Why the duplicate-trigger walk refused a tree.
#[derive(Debug, PartialEq, Eq, Structural)]
pub enum BindError {
    DuplicateTrigger,
    /// The duplicate-trigger walk cannot descend a node with several children.
    MultiChildNode,
}

/// Insert `t` into `out`; a trigger already there is a [`BindError::DuplicateTrigger`].
pub fn insert_or_error<T: Eq + Hash>(out: &mut HashSet<T>, t: T) -> (r: Result<(), BindError>)
    ensures
        r is Ok || r == Err::<(), BindError>(BindError::DuplicateTrigger),
        obeys_key_model::<T>() ==> {
            &&& final(out)@ == old(out)@.insert(t)
            &&& (r is Ok <==> !old(out)@.contains(t))
        },
{
    if out.insert(t) {
        Ok(())
    } else {
        Err(BindError::DuplicateTrigger)
    }
}

/// Calls a closure trigger on `state`.
pub fn call_with<S: ?Sized, T, F: FnOnce(&S) -> T>(state: &S, f: F) -> (r: T)
    requires
        f.requires((state,)),
    ensures
        f.ensures((state,), r),
{
    f(state)
}

/// Marker type naming an app's trigger, event, and output types.
pub trait Bindings {
    type Trigger: Eq + Hash;
    type Event;
    type Output;
}

} // verus!
