//! Schedule over small trees. Each node's `Dispatch` is written out by hand in the shape the
//! derive gives it: snap the triggers, descend into the children, then run the items in order.

use freddie::bind::{AscendState, Dispatch, and, dispatch, exclusive, if_not_invalidated};
use freddie::laserbeam::{
    Completed, CompletesTo, HasPath, HasStop, IntoAncestor, MaybeInvalidated, PathMut,
};
use freddie::trigger::{Bindings, Claim, EventTrigger};

pub struct KeyEvent {
    pub key: &'static str,
}

/// Matches every key.
pub struct AnyKey;

impl EventTrigger for AnyKey {
    type Event = KeyEvent;
    fn matching(&self, _ev: &KeyEvent) -> bool {
        true
    }
    fn is_matching(&self, _ev: &KeyEvent) -> bool {
        true
    }
}

#[derive(Clone, PartialEq, Eq, Hash, Debug)]
pub struct Key(pub &'static str);

impl EventTrigger for Key {
    type Event = KeyEvent;
    fn matching(&self, ev: &KeyEvent) -> bool {
        self.0 == ev.key
    }
    fn is_matching(&self, ev: &KeyEvent) -> bool {
        self.0 == ev.key
    }
}

#[derive(Clone, PartialEq, Eq, Hash, Debug)]
pub enum DemoTrigger {
    Key(Key),
}

pub enum DemoEvent {
    Key(KeyEvent),
}

impl<'a> TryFrom<&'a DemoEvent> for &'a KeyEvent {
    type Error = ();
    fn try_from(e: &'a DemoEvent) -> Result<Self, ()> {
        let DemoEvent::Key(k) = e;
        Ok(k)
    }
}

#[derive(Clone, Copy, PartialEq, Eq, Debug)]
pub struct TimerId(pub u64);

impl TimerId {
    /// Fixed id so a walk can name it.
    const fn fresh() -> Self {
        Self(1)
    }
}

#[derive(Debug)]
pub struct TimerGuard {
    pub id: TimerId,
}

#[derive(PartialEq, Eq, Debug)]
pub enum DemoEffect {
    ScheduleTimer(TimerId),
    CancelTimer(TimerId),
    FlashOverlay,
    SawStanding,
    SawInvalidated,
}

pub struct M;

impl Bindings for M {
    type Trigger = DemoTrigger;
    type Event = DemoEvent;
    type Output = Vec<DemoEffect>;
}

const fn key(k: &'static str) -> DemoEvent {
    DemoEvent::Key(KeyEvent { key: k })
}

type Proj<P, N> = for<'p> fn(&'p mut P) -> &'p mut N;
type Shared<P, N> = for<'p> fn(&'p P) -> &'p N;
type Path<N, P> = PathMut<N, P, Proj<P, N>, Shared<P, N>>;

/// The snapped event of an item whose trigger matched, with what its pre read.
fn snap<'e, T: EventTrigger<Event = KeyEvent>, S>(
    event: &'e DemoEvent,
    trigger: T,
    pre: impl FnOnce(&'e KeyEvent) -> S,
) -> Option<(&'e KeyEvent, S)> {
    match <&KeyEvent>::try_from(event) {
        Ok(ev) => {
            if trigger.is_matching(ev) {
                Some((ev, pre(ev)))
            } else {
                None
            }
        }
        Err(()) => None,
    }
}

// A -> B: `B` arms a return-home timer; a leave has to cancel it.

pub struct A {
    pub b: B,
}

pub struct B {
    pub return_home: TimerGuard,
}

pub type APath<'a> = &'a mut A;
pub type BPath<'a> = Path<B, APath<'a>>;

impl HasPath for A {
    type Path<'a> = &'a mut A where Self: 'a;
}

impl HasPath for B {
    type Path<'a> = BPath<'a> where Self: 'a;
}

/// `pre_post(AnyKey => (snap_return_home, return_home_deadline))`, `bind(Key("esc") => flash)`,
/// child `b`.
impl Dispatch<M> for A {
    fn dispatch<'a, 'c>(
        path: <Self as HasPath>::Path<'a>,
        event: &DemoEvent,
        effs: &mut Vec<DemoEffect>,
        claim: &mut Claim<'c>,
    ) -> Completed<<Self as HasPath>::Path<'a>>
    where
        Self: 'a,
        <Self as HasPath>::Path<'a>: HasStop,
    {
        let opt_0 = snap(event, AnyKey, |ev| snap_return_home(ev, &path));
        let opt_1 = snap(event, Key("esc"), |_| ());
        let mut state = MaybeInvalidated::NotInvalidated(path);
        state = state.descend(|path| {
            let child: BPath<'_> = PathMut::from_fn(path, |o| &mut o.b, |o| &o.b);
            B::dispatch(child, event, effs, claim).into_inner().to_maybe_invalidated()
        });
        if let Some((ev, snapped)) = opt_0 {
            let (e, completed) =
                return_home_deadline(ev, snapped, AscendState::new(state, claim.reborrow()));
            effs.extend(e);
            state = completed.to_maybe_invalidated();
        }
        if let Some((ev, snapped)) = opt_1 {
            let (e, completed) =
                exclusive(flash)(ev, snapped, AscendState::new(state, claim.reborrow()));
            effs.extend(e);
            state = completed.to_maybe_invalidated();
        }
        state.complete()
    }
}

/// `bind(Key("h") => go_home, Key("bump") => bump_timer)`.
impl Dispatch<M> for B {
    fn dispatch<'a, 'c>(
        path: <Self as HasPath>::Path<'a>,
        event: &DemoEvent,
        effs: &mut Vec<DemoEffect>,
        claim: &mut Claim<'c>,
    ) -> Completed<<Self as HasPath>::Path<'a>>
    where
        Self: 'a,
        <Self as HasPath>::Path<'a>: HasStop,
    {
        let opt_0 = snap(event, Key("h"), |_| ());
        let opt_1 = snap(event, Key("bump"), |_| ());
        let mut state = MaybeInvalidated::NotInvalidated(path);
        if let Some((ev, snapped)) = opt_0 {
            let (e, completed) =
                exclusive(go_home)(ev, snapped, AscendState::new(state, claim.reborrow()));
            effs.extend(e);
            state = completed.to_maybe_invalidated();
        }
        if let Some((ev, snapped)) = opt_1 {
            let (e, completed) =
                exclusive(bump_timer)(ev, snapped, AscendState::new(state, claim.reborrow()));
            effs.extend(e);
            state = completed.to_maybe_invalidated();
        }
        state.complete()
    }
}

fn go_home<'x, P>(
    _ev: &KeyEvent,
    _snap: (),
    st: AscendState<'_, P>,
) -> (Vec<DemoEffect>, Completed<P>)
where
    P: HasStop,
    MaybeInvalidated<P>: IntoAncestor<APath<'x>>,
    APath<'x>: CompletesTo<P>,
{
    (vec![], st.state.into_ancestor::<APath<'x>>().complete())
}

fn bump_timer<'x>(
    _ev: &KeyEvent,
    _snap: (),
    st: AscendState<'_, BPath<'x>>,
) -> (Vec<DemoEffect>, Completed<BPath<'x>>) {
    match st.state {
        MaybeInvalidated::NotInvalidated(mut b) => {
            b.get_mut().return_home = TimerGuard { id: TimerId(99) };
            (vec![], b.complete())
        }
        MaybeInvalidated::Invalidated(c) => (vec![], c),
    }
}

fn flash<'x>(
    _ev: &KeyEvent,
    _snap: (),
    st: AscendState<'_, APath<'x>>,
) -> (Vec<DemoEffect>, Completed<APath<'x>>) {
    (vec![DemoEffect::FlashOverlay], st.complete())
}

/// Reads the timer id while B is still there.
const fn snap_return_home(_ev: &KeyEvent, a: &APath<'_>) -> TimerId {
    a.b.return_home.id
}

/// Rearms while B is standing; cancels from the snap when invalidated.
fn return_home_deadline<'x>(
    _ev: &KeyEvent,
    snapped: TimerId,
    st: AscendState<'_, APath<'x>>,
) -> (Vec<DemoEffect>, Completed<APath<'x>>) {
    match st.state {
        MaybeInvalidated::NotInvalidated(a) => {
            let fresh = TimerId::fresh();
            a.b.return_home = TimerGuard { id: fresh };
            (
                vec![
                    DemoEffect::CancelTimer(snapped),
                    DemoEffect::ScheduleTimer(fresh),
                ],
                a.complete(),
            )
        }
        MaybeInvalidated::Invalidated(c) => (vec![DemoEffect::CancelTimer(snapped)], c),
    }
}

const fn demo(id: u64) -> A {
    A {
        b: B {
            return_home: TimerGuard { id: TimerId(id) },
        },
    }
}

#[test]
fn key_h_leaves_and_the_post_cancels_from_its_snap() {
    let mut a = demo(7);
    assert_eq!(
        dispatch::<M, A, _>(&mut a, &key("h")),
        vec![DemoEffect::CancelTimer(TimerId(7))]
    );
    assert_eq!(
        a.b.return_home.id,
        TimerId(7),
        "the invalidated arm rearms nothing"
    );
}

#[test]
fn an_unclaimed_key_still_rearms() {
    let mut a = demo(7);
    assert_eq!(
        dispatch::<M, A, _>(&mut a, &key("x")),
        vec![
            DemoEffect::CancelTimer(TimerId(7)),
            DemoEffect::ScheduleTimer(TimerId(1)),
        ]
    );
    assert_eq!(a.b.return_home.id, TimerId(1), "the post rearmed it");
}

#[test]
fn a_post_and_a_bind_both_run_in_source_order() {
    let mut a = demo(7);
    assert_eq!(
        dispatch::<M, A, _>(&mut a, &key("esc")),
        vec![
            DemoEffect::CancelTimer(TimerId(7)),
            DemoEffect::ScheduleTimer(TimerId(1)),
            DemoEffect::FlashOverlay,
        ]
    );
}

#[test]
fn a_pre_snaps_before_the_descent_mutates() {
    let mut a = demo(7);
    let effects = dispatch::<M, A, _>(&mut a, &key("bump"));
    assert_eq!(
        effects,
        vec![
            DemoEffect::CancelTimer(TimerId(7)),
            DemoEffect::ScheduleTimer(TimerId(1)),
        ],
        "the snap is the id from before the descent, not the 99 it wrote"
    );
    assert_eq!(a.b.return_home.id, TimerId(1));
}

// Trap -> TrapChild: the child's closure trigger reads the parent.

pub struct Trap {
    pub open: bool,
    pub child: TrapChild,
}

pub struct TrapChild;

pub type TrapPath<'a> = &'a mut Trap;
pub type TrapChildPath<'a> = Path<TrapChild, TrapPath<'a>>;

impl HasPath for Trap {
    type Path<'a> = &'a mut Trap where Self: 'a;
}

impl HasPath for TrapChild {
    type Path<'a> = TrapChildPath<'a> where Self: 'a;
}

/// `bind(Key("t") => trap_root)`, child `child`.
impl Dispatch<M> for Trap {
    fn dispatch<'a, 'c>(
        path: <Self as HasPath>::Path<'a>,
        event: &DemoEvent,
        effs: &mut Vec<DemoEffect>,
        claim: &mut Claim<'c>,
    ) -> Completed<<Self as HasPath>::Path<'a>>
    where
        Self: 'a,
        <Self as HasPath>::Path<'a>: HasStop,
    {
        let opt_0 = snap(event, Key("t"), |_| ());
        let mut state = MaybeInvalidated::NotInvalidated(path);
        state = state.descend(|path| {
            let child: TrapChildPath<'_> =
                PathMut::from_fn(path, |o| &mut o.child, |o| &o.child);
            TrapChild::dispatch(child, event, effs, claim)
                .into_inner()
                .to_maybe_invalidated()
        });
        if let Some((ev, snapped)) = opt_0 {
            let (e, completed) =
                exclusive(trap_root)(ev, snapped, AscendState::new(state, claim.reborrow()));
            effs.extend(e);
            state = completed.to_maybe_invalidated();
        }
        state.complete()
    }
}

/// `bind(|p: &TrapChildPath| p.parent().open.then_some(Key("t")) => trap_child)`.
impl Dispatch<M> for TrapChild {
    fn dispatch<'a, 'c>(
        path: <Self as HasPath>::Path<'a>,
        event: &DemoEvent,
        effs: &mut Vec<DemoEffect>,
        claim: &mut Claim<'c>,
    ) -> Completed<<Self as HasPath>::Path<'a>>
    where
        Self: 'a,
        <Self as HasPath>::Path<'a>: HasStop,
    {
        let trigger = freddie::trigger::call_with(&path, |p: &TrapChildPath| {
            p.parent().open.then_some(Key("t"))
        });
        let opt_0 = snap(event, trigger, |_| ());
        let mut state = MaybeInvalidated::NotInvalidated(path);
        if let Some((ev, snapped)) = opt_0 {
            let (e, completed) =
                exclusive(trap_child)(ev, snapped, AscendState::new(state, claim.reborrow()));
            effs.extend(e);
            state = completed.to_maybe_invalidated();
        }
        state.complete()
    }
}

fn trap_root<'x>(
    _ev: &KeyEvent,
    _snap: (),
    st: AscendState<'_, TrapPath<'x>>,
) -> (Vec<DemoEffect>, Completed<TrapPath<'x>>) {
    (vec![DemoEffect::FlashOverlay], st.complete())
}

fn trap_child<'x>(
    _ev: &KeyEvent,
    _snap: (),
    st: AscendState<'_, TrapChildPath<'x>>,
) -> (Vec<DemoEffect>, Completed<TrapChildPath<'x>>) {
    (vec![DemoEffect::SawStanding], st.complete())
}

#[test]
fn the_deepest_binding_takes_the_claim_and_the_ancestors_is_skipped() {
    let mut trap = Trap {
        open: true,
        child: TrapChild,
    };
    assert_eq!(
        dispatch::<M, Trap, _>(&mut trap, &key("t")),
        vec![DemoEffect::SawStanding],
        "the child claimed, so the root's bind completed where it stood"
    );

    let mut trap = Trap {
        open: false,
        child: TrapChild,
    };
    assert_eq!(
        dispatch::<M, Trap, _>(&mut trap, &key("t")),
        vec![DemoEffect::FlashOverlay]
    );
}

// Top -> Mid -> Leaf: posts at the root, chained binds at the leaf.

pub struct Top {
    pub mid: Mid,
}

pub struct Mid {
    pub leaf: Leaf,
}

pub struct Leaf;

pub type TopPath<'a> = &'a mut Top;
pub type MidPath<'a> = Path<Mid, TopPath<'a>>;
pub type LeafPath<'a> = Path<Leaf, MidPath<'a>>;

impl HasPath for Top {
    type Path<'a> = &'a mut Top where Self: 'a;
}

impl HasPath for Mid {
    type Path<'a> = MidPath<'a> where Self: 'a;
}

impl HasPath for Leaf {
    type Path<'a> = LeafPath<'a> where Self: 'a;
}

/// `post(AnyKey => witness)` twice, child `mid`.
impl Dispatch<M> for Top {
    fn dispatch<'a, 'c>(
        path: <Self as HasPath>::Path<'a>,
        event: &DemoEvent,
        effs: &mut Vec<DemoEffect>,
        claim: &mut Claim<'c>,
    ) -> Completed<<Self as HasPath>::Path<'a>>
    where
        Self: 'a,
        <Self as HasPath>::Path<'a>: HasStop,
    {
        let opt_0 = snap(event, AnyKey, |_| ());
        let opt_1 = snap(event, AnyKey, |_| ());
        let mut state = MaybeInvalidated::NotInvalidated(path);
        state = state.descend(|path| {
            let child: MidPath<'_> = PathMut::from_fn(path, |o| &mut o.mid, |o| &o.mid);
            Mid::dispatch(child, event, effs, claim).into_inner().to_maybe_invalidated()
        });
        if let Some((ev, snapped)) = opt_0 {
            let (e, completed) = witness(ev, snapped, AscendState::new(state, claim.reborrow()));
            effs.extend(e);
            state = completed.to_maybe_invalidated();
        }
        if let Some((ev, snapped)) = opt_1 {
            let (e, completed) = witness(ev, snapped, AscendState::new(state, claim.reborrow()));
            effs.extend(e);
            state = completed.to_maybe_invalidated();
        }
        state.complete()
    }
}

/// No items, child `leaf`.
impl Dispatch<M> for Mid {
    fn dispatch<'a, 'c>(
        path: <Self as HasPath>::Path<'a>,
        event: &DemoEvent,
        effs: &mut Vec<DemoEffect>,
        claim: &mut Claim<'c>,
    ) -> Completed<<Self as HasPath>::Path<'a>>
    where
        Self: 'a,
        <Self as HasPath>::Path<'a>: HasStop,
    {
        let mut state = MaybeInvalidated::NotInvalidated(path);
        state = state.descend(|path| {
            let child: LeafPath<'_> = PathMut::from_fn(
                path,
                |np| &mut np.get_mut().leaf,
                |np| &np.get().leaf,
            );
            Leaf::dispatch(child, event, effs, claim).into_inner().to_maybe_invalidated()
        });
        state.complete()
    }
}

/// `bind(Key("go") => if_not_invalidated(leaf_home),
///       Key("pair") => if_not_invalidated(and!(emits_flash, emits_cancel)),
///       Key("nest") => if_not_invalidated(and!(emits_flash, emits_cancel, emits_flash)),
///       Key("leave-then-look") => if_not_invalidated(and!(leaf_home, witness_leaf)))`.
impl Dispatch<M> for Leaf {
    fn dispatch<'a, 'c>(
        path: <Self as HasPath>::Path<'a>,
        event: &DemoEvent,
        effs: &mut Vec<DemoEffect>,
        claim: &mut Claim<'c>,
    ) -> Completed<<Self as HasPath>::Path<'a>>
    where
        Self: 'a,
        <Self as HasPath>::Path<'a>: HasStop,
    {
        let opt_0 = snap(event, Key("go"), |_| ());
        let opt_1 = snap(event, Key("pair"), |_| ());
        let opt_2 = snap(event, Key("nest"), |_| ());
        let opt_3 = snap(event, Key("leave-then-look"), |_| ());
        let mut state = MaybeInvalidated::NotInvalidated(path);
        if let Some((ev, snapped)) = opt_0 {
            let (e, completed) = exclusive(if_not_invalidated(leaf_home))(
                ev,
                snapped,
                AscendState::new(state, claim.reborrow()),
            );
            effs.extend(e);
            state = completed.to_maybe_invalidated();
        }
        if let Some((ev, snapped)) = opt_1 {
            let (e, completed) = exclusive(if_not_invalidated(and(emits_flash, emits_cancel)))(
                ev,
                snapped,
                AscendState::new(state, claim.reborrow()),
            );
            effs.extend(e);
            state = completed.to_maybe_invalidated();
        }
        if let Some((ev, snapped)) = opt_2 {
            let (e, completed) = exclusive(if_not_invalidated(and(
                emits_flash,
                and(emits_cancel, emits_flash),
            )))(ev, snapped, AscendState::new(state, claim.reborrow()));
            effs.extend(e);
            state = completed.to_maybe_invalidated();
        }
        if let Some((ev, snapped)) = opt_3 {
            let (e, completed) = exclusive(if_not_invalidated(and(leaf_home, witness_leaf)))(
                ev,
                snapped,
                AscendState::new(state, claim.reborrow()),
            );
            effs.extend(e);
            state = completed.to_maybe_invalidated();
        }
        state.complete()
    }
}

fn emits_flash<P: HasStop + CompletesTo<P>>(
    _ev: &KeyEvent,
    _snap: (),
    p: P,
) -> (Vec<DemoEffect>, Completed<P>) {
    (vec![DemoEffect::FlashOverlay], p.complete())
}

fn emits_cancel<P: HasStop + CompletesTo<P>>(
    _ev: &KeyEvent,
    _snap: (),
    p: P,
) -> (Vec<DemoEffect>, Completed<P>) {
    (vec![DemoEffect::CancelTimer(TimerId(0))], p.complete())
}

fn witness_leaf<'x>(
    _ev: &KeyEvent,
    _snap: (),
    p: LeafPath<'x>,
) -> (Vec<DemoEffect>, Completed<LeafPath<'x>>) {
    (vec![DemoEffect::SawStanding], p.complete())
}

fn leaf_home<'x, P>(_ev: &KeyEvent, _snap: (), p: P) -> (Vec<DemoEffect>, Completed<P>)
where
    P: HasStop + IntoAncestor<TopPath<'x>>,
    TopPath<'x>: CompletesTo<P>,
{
    let root: TopPath<'x> = p.into_ancestor();
    (vec![], root.complete())
}

fn witness<'x>(
    _ev: &KeyEvent,
    _snap: (),
    st: AscendState<'_, TopPath<'x>>,
) -> (Vec<DemoEffect>, Completed<TopPath<'x>>) {
    match st.state {
        MaybeInvalidated::NotInvalidated(top) => (vec![DemoEffect::SawStanding], top.complete()),
        MaybeInvalidated::Invalidated(c) => (vec![DemoEffect::SawInvalidated], c),
    }
}

#[test]
fn a_leave_forwards_through_a_node_that_binds_nothing() {
    let mut top = Top {
        mid: Mid { leaf: Leaf },
    };
    assert_eq!(
        dispatch::<M, Top, _>(&mut top, &key("go")),
        vec![DemoEffect::SawInvalidated, DemoEffect::SawStanding]
    );
}

#[test]
fn posts_run_without_a_claim_on_the_standing_branch() {
    let mut top = Top {
        mid: Mid { leaf: Leaf },
    };
    assert_eq!(
        dispatch::<M, Top, _>(&mut top, &key("nothing-binds-this")),
        vec![DemoEffect::SawStanding, DemoEffect::SawStanding]
    );
}

#[test]
fn and_concatenates_effects_in_order() {
    let mut top = Top {
        mid: Mid { leaf: Leaf },
    };
    assert_eq!(
        dispatch::<M, Top, _>(&mut top, &key("pair")),
        vec![
            DemoEffect::FlashOverlay,
            DemoEffect::CancelTimer(TimerId(0)),
            DemoEffect::SawStanding,
            DemoEffect::SawStanding,
        ]
    );
}

#[test]
fn a_leave_ends_the_chain() {
    let mut top = Top {
        mid: Mid { leaf: Leaf },
    };
    assert_eq!(
        dispatch::<M, Top, _>(&mut top, &key("leave-then-look")),
        vec![DemoEffect::SawInvalidated, DemoEffect::SawStanding,]
    );
}

#[test]
fn and_nests() {
    let mut top = Top {
        mid: Mid { leaf: Leaf },
    };
    assert_eq!(
        dispatch::<M, Top, _>(&mut top, &key("nest")),
        vec![
            DemoEffect::FlashOverlay,
            DemoEffect::CancelTimer(TimerId(0)),
            DemoEffect::FlashOverlay,
            DemoEffect::SawStanding,
            DemoEffect::SawStanding,
        ]
    );
}
