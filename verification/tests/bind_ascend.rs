//! `AscendState` and `exclusive` over an `App -> Layer -> Nav` tree.

use freddie::bind::{exclusive, AscendState};
use freddie::laserbeam::{Completed, CompletesTo, MaybeInvalidated, PathMut, Stop};
use freddie::trigger::Claim;

pub struct KeyEvent {
    pub key: &'static str,
}

pub struct App {
    pub hits: u32,
    pub layer: Layer,
}

pub enum Layer {
    Nav(Nav),
    Typing(Typing),
}

pub struct Nav {
    pub hits: u32,
}

pub struct Typing {
    pub hits: u32,
}

type Proj<P, N> = for<'p> fn(&'p mut P) -> &'p mut N;
type Shared<P, N> = for<'p> fn(&'p P) -> &'p N;
type Path<N, P> = PathMut<N, P, Proj<P, N>, Shared<P, N>>;

pub type AppPath<'a> = &'a mut App;
pub type LayerPath<'a> = Path<Layer, AppPath<'a>>;
pub type NavPath<'a> = Path<Nav, LayerPath<'a>>;

const fn tree(nav_hits: u32) -> App {
    App {
        hits: 0,
        layer: Layer::Nav(Nav { hits: nav_hits }),
    }
}

fn layer_path(app: &mut App) -> LayerPath<'_> {
    PathMut::from_fn(app, |a| &mut a.layer, |a| &a.layer)
}

fn nav_path(app: &mut App) -> NavPath<'_> {
    PathMut::from_fn(
        layer_path(app),
        |lp| match lp.get_mut() {
            Layer::Nav(n) => n,
            Layer::Typing(_) => unreachable!("the test tree is Nav"),
        },
        |lp| match lp.get() {
            Layer::Nav(n) => n,
            Layer::Typing(_) => unreachable!("the test tree is Nav"),
        },
    )
}

const KEY: KeyEvent = KeyEvent { key: "g" };

fn count<'x>(
    ev: &KeyEvent,
    _snap: (),
    st: AscendState<'_, NavPath<'x>>,
) -> (Vec<usize>, Completed<NavPath<'x>>) {
    match st.state {
        MaybeInvalidated::NotInvalidated(mut nav) => {
            nav.get_mut().hits += 1;
            (vec![ev.key.len()], nav.complete())
        }
        MaybeInvalidated::Invalidated(completed) => (vec![ev.key.len()], completed),
    }
}

#[test]
fn an_exclusive_handler_runs_when_the_claim_is_free() {
    let mut app = tree(0);
    let mut slot = None;
    let mut claim = Claim::new(&mut slot);
    {
        let state = MaybeInvalidated::NotInvalidated(nav_path(&mut app));
        let (effs, completed) =
            exclusive(count)(&KEY, (), AscendState::new(state, claim.reborrow()));
        assert_eq!(effs, vec![1]);
        let Stop::Here(nav) = completed.into_inner() else {
            panic!("the handler stayed where it was");
        };
        assert_eq!(nav.get().hits, 1);
    }
    assert!(claim.is_taken());
}

#[test]
fn an_exclusive_handler_is_skipped_once_the_claim_is_taken() {
    let mut app = tree(0);
    let mut slot = None;
    let mut claim = Claim::new(&mut slot);
    {
        let first = MaybeInvalidated::NotInvalidated(nav_path(&mut app));
        let (_, completed) = exclusive(count)(&KEY, (), AscendState::new(first, claim.reborrow()));
        drop(completed);
    }
    {
        let second = MaybeInvalidated::NotInvalidated(nav_path(&mut app));
        let (effs, completed) =
            exclusive(count)(&KEY, (), AscendState::new(second, claim.reborrow()));
        assert!(effs.is_empty(), "the second handler never ran");
        let Stop::Here(nav) = completed.into_inner() else {
            panic!("a skipped handler completes where the state stands");
        };
        assert_eq!(nav.get().hits, 1, "only the first handler counted");
    }
}

#[test]
fn a_skipped_handler_forwards_the_leave_it_was_handed() {
    let mut app = tree(0);
    let mut slot = Some(());
    let mut claim = Claim::new(&mut slot);
    {
        let left: Completed<NavPath<'_>> =
            nav_path(&mut app).into_parent().into_parent().complete();
        let state = MaybeInvalidated::Invalidated(left);
        let (effs, completed) =
            exclusive(count)(&KEY, (), AscendState::new(state, claim.reborrow()));
        assert!(effs.is_empty());
        let Stop::Up(rest) = completed.into_inner() else {
            panic!("the leave still points above nav");
        };
        let Stop::Up(root) = rest.into_inner() else {
            panic!("the leave still points above the layer");
        };
        root.hits = 9;
    }
    assert_eq!(app.hits, 9);
}

#[test]
fn a_handler_scheduled_without_the_gate_runs_with_the_claim_taken() {
    let mut app = tree(0);
    let mut slot = Some(());
    let mut claim = Claim::new(&mut slot);
    {
        let state = MaybeInvalidated::NotInvalidated(nav_path(&mut app));
        let (effs, completed) = count(&KEY, (), AscendState::new(state, claim.reborrow()));
        assert_eq!(effs, vec![1]);
        drop(completed);
    }
    let Layer::Nav(nav) = &app.layer else {
        unreachable!("the test tree is Nav")
    };
    assert_eq!(nav.hits, 1);
}

#[test]
fn an_ascend_state_takes_the_claim_once() {
    let mut app = tree(0);
    let mut slot = None;
    let claim = Claim::new(&mut slot);
    let state = MaybeInvalidated::NotInvalidated(nav_path(&mut app));
    let mut st = AscendState::new(state, claim);
    assert_eq!(st.claim(), Some(()));
    assert_eq!(st.claim(), None);
    let Stop::Here(nav) = st.complete().into_inner() else {
        panic!("a standing state completes where it stands");
    };
    assert_eq!(nav.get().hits, 0);
}
