//! Binding layer over a laserbeam state tree: the state a scheduled handler receives, the
//! combinators that gate and chain handlers, and dispatch from the root.

use crate::laserbeam::{Completed, CompletesTo, HasPath, HasStop, MaybeInvalidated, PathMut};
use crate::trigger::{lemma_resolved_claim_keeps_its_slot, BindError, Bindings, Claim};
use std::collections::HashSet;
use std::collections::VecDeque;
use vstd::prelude::*;

verus! {

/// Claim and path state handed to a scheduled handler.
pub struct AscendState<'a, P: HasStop> {
    claim: Claim<'a>,
    /// Path after descent and every earlier item on this node.
    pub state: MaybeInvalidated<P>,
}

impl<'a, P: HasStop> AscendState<'a, P> {
    /// The path state this handler receives.
    pub closed spec fn state_view(&self) -> MaybeInvalidated<P> {
        self.state
    }

    /// The dispatch's claim this state carries.
    pub closed spec fn claim_view(&self) -> Claim<'a> {
        self.claim
    }

    /// Whether the dispatch's one claim is already taken.
    pub open spec fn claim_taken(&self) -> bool {
        self.claim_view().taken()
    }

    pub fn new(state: MaybeInvalidated<P>, claim: Claim<'a>) -> (r: Self)
        ensures
            r.state_view() == state,
            r.claim_view() == claim,
    {
        AscendState { claim, state }
    }

    /// Take the dispatch's claim: `Some(())` only for the first taker. It behaves as
    /// [`Claim::try_take`] on the claim the state carries.
    pub fn claim(&mut self) -> (r: Option<()>)
        ensures
            r.is_some() == !old(self).claim_taken(),
            *final(self).claim_view().slot_ref() == Some(()),
            *final(final(self).claim_view().slot_ref()) == *final(old(self).claim_view().slot_ref()),
            final(self).state_view() == old(self).state_view(),
    {
        self.claim.try_take()
    }

    /// The leave this state ends with: a standing path completes where it stands.
    pub fn complete(self) -> (r: Completed<P>)
        where
            P: CompletesTo<P>,
        ensures
            r == self.state_view().completed(),
            *final(self.claim_view().slot_ref()) == *self.claim_view().slot_ref(),
    {
        let AscendState { claim, state } = self;
        proof {
            lemma_resolved_claim_keeps_its_slot(claim);
        }
        state.complete()
    }
}

/// What a handler returns: its effects and the leave it ends with.
pub type Outcome<E, P> = (Vec<E>, Completed<P>);

/// What [`if_not_invalidated`] answers: the handler's outcome on a standing path, and no effects
/// with the leave unchanged on an invalidated one.
pub open spec fn guarded<Ev, Snap, P: HasStop, E, H: FnOnce(Ev, Snap, P) -> Outcome<E, P>>(
    handler: H,
    ev: Ev,
    snap: Snap,
    state: MaybeInvalidated<P>,
    out: Outcome<E, P>,
) -> bool {
    match state {
        MaybeInvalidated::NotInvalidated(p) => handler.ensures((ev, snap, p), out),
        MaybeInvalidated::Invalidated(c) => out.0@ == Seq::<E>::empty() && out.1 == c,
    }
}

/// Adapter so the handler takes the path, not [`AscendState`]. An invalidated path completes with
/// no effects. The claim inside the state is neither read nor taken: its slot is left as it was.
pub fn if_not_invalidated<Ev, Snap, P, E, H>(handler: H) -> (r: impl for<'a> FnOnce(
    Ev,
    Snap,
    AscendState<'a, P>,
) -> Outcome<E, P>)
    where
        P: HasStop,
        H: FnOnce(Ev, Snap, P) -> Outcome<E, P>,
    requires
        forall|ev: Ev, snap: Snap, p: P| #[trigger] handler.requires((ev, snap, p)),
    ensures
        forall|ev: Ev, snap: Snap, st: AscendState<P>| #[trigger] r.requires((ev, snap, st)),
        forall|ev: Ev, snap: Snap, st: AscendState<P>, out: Outcome<E, P>|
            #[trigger] r.ensures((ev, snap, st), out) ==> {
                &&& guarded(handler, ev, snap, st.state_view(), out)
                &&& *final(st.claim_view().slot_ref()) == *st.claim_view().slot_ref()
            },
{
    move |ev: Ev, snap: Snap, st: AscendState<'_, P>| -> (out: Outcome<E, P>)
        requires
            forall|ev: Ev, snap: Snap, p: P| #[trigger] handler.requires((ev, snap, p)),
        ensures
            guarded(handler, ev, snap, st.state_view(), out),
            *final(st.claim_view().slot_ref()) == *st.claim_view().slot_ref(),
        {
            let AscendState { claim, state } = st;
            proof {
                lemma_resolved_claim_keeps_its_slot(claim);
            }
            match state {
                MaybeInvalidated::NotInvalidated(p) => handler(ev, snap, p),
                MaybeInvalidated::Invalidated(c) => (Vec::new(), c),
            }
        }
}

/// Claim gate for a bind: the handler runs only for the first taker of the dispatch's claim.
/// Posts do not go through this. With the claim free, the answer is the handler's outcome on
/// the same state with the claim now taken, over the same slot; with the claim already taken,
/// no effects, the state completed where it stands, and the slot left as it was.
pub fn exclusive<Ev, Snap, P, E, H>(handler: H) -> (r: impl for<'a> FnOnce(
    Ev,
    Snap,
    AscendState<'a, P>,
) -> Outcome<E, P>)
    where
        P: HasStop + CompletesTo<P>,
        H: for<'a> FnOnce(Ev, Snap, AscendState<'a, P>) -> Outcome<E, P>,
    requires
        forall|ev: Ev, snap: Snap, st: AscendState<P>| #[trigger] handler.requires((ev, snap, st)),
    ensures
        forall|ev: Ev, snap: Snap, st: AscendState<P>| #[trigger] r.requires((ev, snap, st)),
        forall|ev: Ev, snap: Snap, st: AscendState<P>, out: Outcome<E, P>|
            #[trigger] r.ensures((ev, snap, st), out) ==> {
                &&& st.claim_taken() ==> {
                    &&& out.0@ == Seq::<E>::empty()
                    &&& out.1 == st.state_view().completed()
                    &&& *final(st.claim_view().slot_ref()) == *st.claim_view().slot_ref()
                }
                &&& !st.claim_taken() ==> exists|held: AscendState<P>|
                    {
                        &&& held.state_view() == st.state_view()
                        &&& *held.claim_view().slot_ref() == Some(())
                        &&& *final(held.claim_view().slot_ref()) == *final(st.claim_view().slot_ref())
                        &&& #[trigger] handler.ensures((ev, snap, held), out)
                    }
            },
{
    move |ev: Ev, snap: Snap, st: AscendState<'_, P>| -> (out: Outcome<E, P>)
        requires
            forall|ev: Ev, snap: Snap, st: AscendState<P>| #[trigger] handler.requires((ev, snap, st)),
        ensures
            st.claim_taken() ==> {
                &&& out.0@ == Seq::<E>::empty()
                &&& out.1 == st.state_view().completed()
                &&& *final(st.claim_view().slot_ref()) == *st.claim_view().slot_ref()
            },
            !st.claim_taken() ==> exists|held: AscendState<P>|
                {
                    &&& held.state_view() == st.state_view()
                    &&& *held.claim_view().slot_ref() == Some(())
                    &&& *final(held.claim_view().slot_ref()) == *final(st.claim_view().slot_ref())
                    &&& #[trigger] handler.ensures((ev, snap, held), out)
                },
        {
            let mut held = st;
            match held.claim() {
                Some(()) => handler(ev, snap, held),
                None => {
                    let done = held.complete();
                    proof {
                        assert(*final(st.claim_view().slot_ref()) == *st.claim_view().slot_ref());
                    }
                    (Vec::new(), done)
                },
            }
        }
}

/// What [`and`] answers: `a` runs first; if its leave reopens to a standing path, `b` runs on that
/// path and the effects are `a`'s then `b`'s; otherwise `b` is skipped and `a`'s leave stands.
pub open spec fn chained<Ev, Snap, P: HasStop, E, A: FnOnce(Ev, Snap, P) -> Outcome<E, P>, B: FnOnce(
    Ev,
    Snap,
    P,
) -> Outcome<E, P>>(a: A, b: B, ev: Ev, snap: Snap, p: P, out: Outcome<E, P>) -> bool {
    exists|first: Outcome<E, P>|
        {
            &&& #[trigger] a.ensures((ev, snap, p), first)
            &&& match P::reopen(first.1) {
                MaybeInvalidated::NotInvalidated(q) => exists|second: Outcome<E, P>|
                    {
                        &&& #[trigger] b.ensures((ev, snap, q), second)
                        &&& out.0@ == first.0@ + second.0@
                        &&& out.1 == second.1
                    },
                MaybeInvalidated::Invalidated(c) => out.0@ == first.0@ && out.1 == c,
            }
        }
}

/// Runs `a` then `b`. A leave from `a` skips `b`. Does not take the claim; a bind wraps the whole
/// composition in [`exclusive`]. Both units receive the same event and snap, hence `Copy`.
pub fn and<Ev, Snap, P, E, A, B>(a: A, b: B) -> (r: impl FnOnce(Ev, Snap, P) -> Outcome<E, P>)
    where
        Ev: Copy,
        Snap: Copy,
        P: HasStop,
        A: FnOnce(Ev, Snap, P) -> Outcome<E, P>,
        B: FnOnce(Ev, Snap, P) -> Outcome<E, P>,
    requires
        forall|ev: Ev, snap: Snap, p: P| #[trigger] a.requires((ev, snap, p)),
        forall|ev: Ev, snap: Snap, p: P| #[trigger] b.requires((ev, snap, p)),
    ensures
        forall|ev: Ev, snap: Snap, p: P| #[trigger] r.requires((ev, snap, p)),
        forall|ev: Ev, snap: Snap, p: P, out: Outcome<E, P>|
            #[trigger] r.ensures((ev, snap, p), out) ==> chained(a, b, ev, snap, p, out),
{
    move |ev: Ev, snap: Snap, p: P| -> (out: Outcome<E, P>)
        requires
            forall|ev: Ev, snap: Snap, p: P| #[trigger] a.requires((ev, snap, p)),
            forall|ev: Ev, snap: Snap, p: P| #[trigger] b.requires((ev, snap, p)),
        ensures
            chained(a, b, ev, snap, p, out),
        {
            let first = a(ev, snap, p);
            let (mut effs, completed) = first;
            match completed.to_maybe_invalidated() {
                MaybeInvalidated::NotInvalidated(q) => {
                    let second = b(ev, snap, q);
                    let (mut more, completed) = second;
                    effs.append(&mut more);
                    (effs, completed)
                },
                MaybeInvalidated::Invalidated(completed) => (effs, completed),
            }
        }
}

/// Parent plus immutable data for a level that is not a place in the tree.
pub struct DerivedLevel<Parent, Data> {
    pub parent: Parent,
    pub data: Data,
}

/// Place path at the bottom of a parent chain. A [`DerivedLevel`] flattens to its parent; a
/// place is itself.
pub trait HasTreePath {
    type TreePath;

    /// The place path beneath this level.
    spec fn tree_path(self) -> Self::TreePath;

    fn into_tree_path(self) -> (r: Self::TreePath)
        ensures
            r == self.tree_path(),
    ;
}

impl<'r, R> HasTreePath for &'r mut R {
    type TreePath = Self;

    open spec fn tree_path(self) -> Self {
        self
    }

    fn into_tree_path(self) -> (r: Self) {
        // Passed on through an owned value, so it stays this very reference and not a reborrow.
        let moved = Some(self);
        moved.unwrap()
    }
}

impl<N, P, M, R> HasTreePath for PathMut<N, P, M, R> {
    type TreePath = Self;

    open spec fn tree_path(self) -> Self {
        self
    }

    fn into_tree_path(self) -> (r: Self) {
        self
    }
}

impl<Parent: HasTreePath, Data> HasTreePath for DerivedLevel<Parent, Data> {
    type TreePath = Parent::TreePath;

    open spec fn tree_path(self) -> Parent::TreePath {
        self.parent.tree_path()
    }

    fn into_tree_path(self) -> (r: Parent::TreePath) {
        self.parent.into_tree_path()
    }
}

/// Derived levels flatten to the place beneath them: one level or two over a path reach that
/// same path.
pub proof fn law_derived_levels_flatten<P: HasTreePath, D, E>(parent: P, inner: D, outer: E)
    ensures
        (DerivedLevel { parent, data: inner }).tree_path() == parent.tree_path(),
        (DerivedLevel { parent: DerivedLevel { parent, data: inner }, data: outer }).tree_path()
            == parent.tree_path(),
{
}

/// Dispatch for a derived level, returning a leave at the place path beneath it.
pub trait DispatchIntoTreePath<M: Bindings>: HasTreePath + Sized where Self::TreePath: HasStop {
    fn dispatch_into_tree_path(
        self,
        event: &M::Event,
        effs: &mut M::Output,
        claim: &mut Claim<'_>,
    ) -> Completed<Self::TreePath>;
}

/// Runs the handler the active state binds. Child first, then this node's items, so a child's
/// bind outranks an ancestor's.
pub trait Dispatch<M: Bindings>: HasPath {
    /// The outcomes this node's dispatch allows: from `path`, for `event`, with `effs` so far and
    /// the claim `taken` or not, it may end with the leave `leave`, the effects `effs_after` and
    /// the claim `taken_after` or not. A node that states nothing allows every outcome; the
    /// library assumes nothing of it beyond that its dispatch ends in one of these outcomes.
    open spec fn dispatches<'a>(
        path: Self::Path<'a>,
        event: M::Event,
        effs: M::Output,
        taken: bool,
        leave: Completed<Self::Path<'a>>,
        effs_after: M::Output,
        taken_after: bool,
    ) -> bool
        where
            Self: 'a,
            Self::Path<'a>: HasStop,
    {
        true
    }

    fn dispatch<'a, 'c>(
        path: Self::Path<'a>,
        event: &M::Event,
        effs: &mut M::Output,
        claim: &mut Claim<'c>,
    ) -> (r: Completed<Self::Path<'a>>)
        where
            Self: 'a,
            Self::Path<'a>: HasStop,
        ensures
            Self::dispatches(path, *event, *old(effs), old(claim).taken(), r, *final(effs), final(claim).taken()),
    ;
}

/// `effs` are effects that dispatching `event` from `path` can leave when it starts with no
/// effects and the claim untaken.
pub open spec fn dispatched<'a, M, N, E>(path: N::Path<'a>, event: M::Event, effs: Vec<E>) -> bool
    where
        M: Bindings<Output = Vec<E>>,
        N: Dispatch<M> + 'a,
        N::Path<'a>: HasStop,
{
    exists|start: Vec<E>, leave: Completed<N::Path<'a>>, taken_after: bool|
        {
            &&& start@ == Seq::<E>::empty()
            &&& #[trigger] N::dispatches(path, event, start, false, leave, effs, taken_after)
        }
}

/// Dispatches `event` from the root with an untaken claim and no effects yet. Returns the
/// effects; the caller performs them.
pub fn dispatch<'a, M, N, E>(path: N::Path<'a>, event: &M::Event) -> (r: Vec<E>)
    where
        M: Bindings<Output = Vec<E>>,
        N: Dispatch<M> + 'a,
        N::Path<'a>: HasStop,
    ensures
        dispatched::<M, N, E>(path, *event, r),
{
    let mut effs: Vec<E> = Vec::new();
    let ghost start = effs;
    let mut claim_slot: Option<()> = None;
    let mut claim = Claim::new(&mut claim_slot);
    let leave = N::dispatch(path, event, &mut effs, &mut claim);
    proof {
        assert(N::dispatches(path, *event, start, false, leave, effs, claim.taken()));
    }
    effs
}

/// Collects live bind triggers. Takes a path, not `&self`, because a derived-child fn needs one.
pub trait AccumulateTriggers<M: Bindings>: HasPath {
    /// The outcomes this node's walk allows: from `path`, with `before` gathered so far, it may
    /// answer `walk` and leave `after` gathered. A node that states nothing allows every outcome;
    /// the library assumes nothing of it beyond that its walk ends in one of these outcomes.
    open spec fn accumulates<'a>(
        path: Self::Path<'a>,
        before: Set<M::Trigger>,
        walk: Result<Self::Path<'a>, BindError>,
        after: Set<M::Trigger>,
    ) -> bool
        where
            Self: 'a,
    {
        true
    }

    /// `Err(BindError::DuplicateTrigger)` when a trigger is bound at more than one node on the
    /// active path.
    fn accumulate<'a>(path: Self::Path<'a>, out: &mut HashSet<M::Trigger>) -> (r: Result<
        Self::Path<'a>,
        BindError,
    >)
        where
            Self: 'a,
        ensures
            Self::accumulates(path, old(out)@, r, final(out)@),
    ;
}

/// Accumulate for a derived level, which has no [`HasPath`].
pub trait AccumulateDerivedTriggers<M: Bindings>: Sized {
    /// The level above, handed back after this level's triggers are inserted.
    type Parent;

    fn accumulate(self, out: &mut HashSet<M::Trigger>) -> Result<Self::Parent, BindError>;
}

/// The triggers bound along the active path from `path`, gathered into a fresh set; the error of
/// the walk passes through unchanged.
pub fn accumulate<'a, M, N>(path: N::Path<'a>) -> (r: Result<HashSet<M::Trigger>, BindError>)
    where
        M: Bindings,
        N: AccumulateTriggers<M> + 'a,
    ensures
        exists|walk: Result<N::Path<'a>, BindError>, filled: Set<M::Trigger>|
            {
                &&& #[trigger] N::accumulates(path, Set::<M::Trigger>::empty(), walk, filled)
                &&& match walk {
                    Ok(_) => r matches Ok(set) && set@ == filled,
                    Err(e) => r == Err::<HashSet<M::Trigger>, BindError>(e),
                }
            },
{
    let mut out: HashSet<M::Trigger> = HashSet::new();
    let ghost start = out@;
    let walk = N::accumulate(path, &mut out);
    proof {
        assert(start == Set::<M::Trigger>::empty());
        assert(N::accumulates(path, Set::<M::Trigger>::empty(), walk, out@));
    }
    gathered(walk, out)
}

/// What a walk's answer makes of the set it filled: the set itself when the walk succeeded,
/// and otherwise the walk's error, unchanged.
pub fn gathered<P, T>(walk: Result<P, BindError>, out: HashSet<T>) -> (r: Result<HashSet<T>, BindError>)
    ensures
        match walk {
            Ok(_) => r matches Ok(set) && set@ == out@,
            Err(e) => r == Err::<HashSet<T>, BindError>(e),
        },
{
    match walk {
        Ok(_) => Ok(out),
        Err(e) => Err(e),
    }
}

/// Synchronous event runner. Drains the queue front first; an empty queue gives `None`.
pub struct SimpleRunner<'a, M: Bindings, N> {
    root: &'a mut N,
    queue: VecDeque<M::Event>,
}

impl<'a, M: Bindings, N> SimpleRunner<'a, M, N> {
    /// The events waiting, front first.
    pub closed spec fn queued(&self) -> Seq<M::Event> {
        self.queue@
    }

    /// The root the runner dispatches from.
    pub closed spec fn root_ref(&self) -> &'a mut N {
        self.root
    }

    pub fn len(&self) -> (r: usize)
        ensures
            r == self.queued().len(),
    {
        self.queue.len()
    }

    pub fn is_empty(&self) -> (r: bool)
        ensures
            r == (self.queued().len() == 0),
    {
        self.queue.len() == 0
    }
}

impl<'a, M, N, E> SimpleRunner<'a, M, N>
    where
        M: Bindings<Output = Vec<E>>,
        N: Dispatch<M> + for<'b> HasPath<Path<'b> = &'b mut N>,
{
    pub fn new(root: &'a mut N) -> (r: Self)
        ensures
            r.queued() == Seq::<M::Event>::empty(),
            *r.root_ref() == *old(root),
            *final(r.root_ref()) == *final(root),
    {
        SimpleRunner { root, queue: VecDeque::new() }
    }

    /// Queues `event`; nothing is dispatched and the root is not touched.
    pub fn queue_event(&mut self, event: M::Event)
        ensures
            final(self).queued() == old(self).queued().push(event),
            final(self).root_ref() == old(self).root_ref(),
    {
        self.queue.push_back(event);
    }

    /// Processes the front event: the effects of dispatching it from the root. `None` if the
    /// queue was empty, and then nothing changes.
    pub fn next(&mut self) -> (r: Option<Vec<E>>)
        ensures
            r is None <==> old(self).queued().len() == 0,
            final(self).queued() == if old(self).queued().len() == 0 {
                old(self).queued()
            } else {
                old(self).queued().drop_first()
            },
            r is None ==> final(self).root_ref() == old(self).root_ref(),
            *final(final(self).root_ref()) == *final(old(self).root_ref()),
            r is Some ==> exists|p: &mut N|
                {
                    &&& *p == *old(self).root_ref()
                    &&& *final(p) == *final(self).root_ref()
                    &&& #[trigger] dispatched::<M, N, E>(p, old(self).queued()[0], r->0)
                },
    {
        match self.queue.pop_front() {
            Some(event) => {
                let ghost fin = *final(self);
                let ghost before = *self.root;
                let effs = dispatch::<M, N, E>(&mut *self.root, &event);
                let result = Some(effs);
                proof {
                    let p = choose|p: &mut N|
                        dispatched::<M, N, E>(p, event, effs) && *p == before && *final(p) == *fin.root;
                    assert(dispatched::<M, N, E>(p, old(self).queued()[0], result->0));
                }
                result
            },
            None => None,
        }
    }

    /// Queues `event` and processes the front of the queue: the effects of dispatching that
    /// front from the root. That front is `event` only if the queue was empty.
    pub fn process_event(&mut self, event: M::Event) -> (r: Vec<E>)
        ensures
            final(self).queued() == old(self).queued().push(event).drop_first(),
            *final(final(self).root_ref()) == *final(old(self).root_ref()),
            exists|p: &mut N|
                {
                    &&& *p == *old(self).root_ref()
                    &&& *final(p) == *final(self).root_ref()
                    &&& #[trigger] dispatched::<M, N, E>(p, old(self).queued().push(event)[0], r)
                },
    {
        self.queue.push_back(event);
        match self.queue.pop_front() {
            Some(front) => dispatch::<M, N, E>(&mut *self.root, &front),
            None => {
                // The queue holds at least the event just pushed.
                proof {
                    assert(false);
                }
                Vec::new()
            },
        }
    }
}

} // verus!
