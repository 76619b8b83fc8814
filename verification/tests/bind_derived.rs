//! A level that is not in the tree. Two derived levels, one under the other: a derived level can
//! have a derived child, and a miss hands the parent back at every level. Each node's dispatch
//! and accumulation is written out by hand in the shape the derive gives it.

use std::collections::HashSet;

use freddie::bind::{
    accumulate, dispatch, exclusive, AccumulateDerivedTriggers, AccumulateTriggers, AscendState,
    DerivedLevel, Dispatch, DispatchIntoTreePath, HasTreePath,
};
use freddie::laserbeam::{Completed, CompletesTo, HasPath, HasStop, MaybeInvalidated, PathMut};
use freddie::trigger::{insert_or_error, BindError, Bindings, Claim, EventTrigger};

#[derive(Clone, PartialEq, Eq, Hash, Debug)]
pub struct Keyboard(pub &'static str);

pub struct KeyEvent {
    pub key: &'static str,
}

impl EventTrigger for Keyboard {
    type Event = KeyEvent;
    fn matching(&self, ev: &KeyEvent) -> bool {
        self.0 == ev.key
    }
    fn is_matching(&self, ev: &KeyEvent) -> bool {
        self.0 == ev.key
    }
}

#[derive(Clone, PartialEq, Eq, Hash, Debug)]
pub enum DemoTrigger {
    Keyboard(Keyboard),
}

impl From<Keyboard> for DemoTrigger {
    fn from(k: Keyboard) -> Self {
        Self::Keyboard(k)
    }
}

pub enum DemoEvent {
    Keyboard(KeyEvent),
}

impl<'a> TryFrom<&'a DemoEvent> for &'a KeyEvent {
    type Error = ();
    fn try_from(e: &'a DemoEvent) -> Result<Self, ()> {
        let DemoEvent::Keyboard(k) = e;
        Ok(k)
    }
}

pub struct Demo;

impl Bindings for Demo {
    type Trigger = DemoTrigger;
    type Event = DemoEvent;
    type Output = Vec<usize>;
}

const fn kb(s: &'static str) -> DemoTrigger {
    DemoTrigger::Keyboard(Keyboard(s))
}

const fn key(k: &'static str) -> DemoEvent {
    DemoEvent::Keyboard(KeyEvent { key: k })
}

type Proj<P, N> = for<'p> fn(&'p mut P) -> &'p mut N;
type Shared<P, N> = for<'p> fn(&'p P) -> &'p N;
type Path<N, P> = PathMut<N, P, Proj<P, N>, Shared<P, N>>;

/// The event an item's trigger matched, with what its pre read; `None` when it did not match.
fn snap<'e, S>(
    event: &'e DemoEvent,
    trigger: Keyboard,
    pre: impl FnOnce(&'e KeyEvent) -> S,
) -> Option<(&'e KeyEvent, S)> {
    let ev = <&KeyEvent>::try_from(event).ok()?;
    if trigger.is_matching(ev) {
        Some((ev, pre(ev)))
    } else {
        None
    }
}

/// Run a matched item on `state` and fold its leave back into the state.
fn run<'c, Ev, S, P, H>(
    opt: Option<(Ev, S)>,
    state: MaybeInvalidated<P>,
    effs: &mut Vec<usize>,
    claim: &mut Claim<'c>,
    rhs: H,
) -> MaybeInvalidated<P>
where
    P: HasStop,
    H: for<'a> FnOnce(Ev, S, AscendState<'a, P>) -> (Vec<usize>, Completed<P>),
{
    match opt {
        Some((ev, snapped)) => {
            let (e, completed) = rhs(ev, snapped, AscendState::new(state, claim.reborrow()));
            effs.extend(e);
            completed.to_maybe_invalidated()
        }
        None => state,
    }
}

pub struct Root {
    pub app: Option<Chrome>,
    pub layer: Shell,
}

pub struct Chrome {
    pub tab: String,
}

pub struct Shell {
    pub log: String,
}

pub struct AppData {
    pub tab: String,
}

pub struct TabData {
    pub thread: u32,
}

pub type RootPath<'a> = &'a mut Root;
pub type ShellPath<'a> = Path<Shell, RootPath<'a>>;
pub type AppNode<'a> = DerivedLevel<ShellPath<'a>, AppData>;
pub type TabNode<'a> = DerivedLevel<AppNode<'a>, TabData>;

impl HasPath for Root {
    type Path<'a> = RootPath<'a> where Self: 'a;
}
impl HasPath for Shell {
    type Path<'a> = ShellPath<'a> where Self: 'a;
}

fn shell_of(root: RootPath<'_>) -> ShellPath<'_> {
    PathMut::from_fn(root, |o| &mut o.layer, |o| &o.layer)
}

fn app_data(path: &ShellPath) -> Option<AppData> {
    let chrome = path.parent().app.as_ref()?;
    Some(AppData {
        tab: chrome.tab.clone(),
    })
}

fn tab_data(node: &AppNode) -> Option<TabData> {
    (node.data.tab == "gmail").then_some(TabData { thread: 7 })
}

/// Child `layer`.
impl Dispatch<Demo> for Root {
    fn dispatch<'a, 'c>(
        path: <Self as HasPath>::Path<'a>,
        event: &DemoEvent,
        effs: &mut Vec<usize>,
        claim: &mut Claim<'c>,
    ) -> Completed<<Self as HasPath>::Path<'a>>
    where
        Self: 'a,
        <Self as HasPath>::Path<'a>: HasStop,
    {
        let mut state = MaybeInvalidated::NotInvalidated(path);
        state = state.descend(|path| {
            Shell::dispatch(shell_of(path), event, effs, claim)
                .into_inner()
                .to_maybe_invalidated()
        });
        state.complete()
    }
}

/// `derived_children(app_data)`, `post(Keyboard("q") => log_leave)`,
/// `bind(Keyboard("esc") => on_esc)`.
impl Dispatch<Demo> for Shell {
    fn dispatch<'a, 'c>(
        path: <Self as HasPath>::Path<'a>,
        event: &DemoEvent,
        effs: &mut Vec<usize>,
        claim: &mut Claim<'c>,
    ) -> Completed<<Self as HasPath>::Path<'a>>
    where
        Self: 'a,
        <Self as HasPath>::Path<'a>: HasStop,
    {
        let opt_0 = snap(event, Keyboard("q"), |_| ());
        let opt_1 = snap(event, Keyboard("esc"), |_| ());
        let mut state = MaybeInvalidated::NotInvalidated(path);
        state = state.descend(|path| match app_data(&path) {
            Some(data) => DerivedLevel { parent: path, data }
                .dispatch_into_tree_path(event, effs, claim)
                .to_maybe_invalidated(),
            None => MaybeInvalidated::NotInvalidated(HasTreePath::into_tree_path(path)),
        });
        state = run(opt_0, state, effs, claim, log_leave);
        state = run(opt_1, state, effs, claim, exclusive(on_esc));
        state.complete()
    }
}

/// `derived_children(tab_data)`, `pre_post(Keyboard("r") => (snap_tab, exclusive(on_r)))`,
/// `bind(Keyboard("q") => app_home)`.
impl<'a> DispatchIntoTreePath<Demo> for DerivedLevel<ShellPath<'a>, AppData> {
    fn dispatch_into_tree_path(
        self,
        event: &DemoEvent,
        effs: &mut Vec<usize>,
        claim: &mut Claim<'_>,
    ) -> Completed<<DerivedLevel<ShellPath<'a>, AppData> as HasTreePath>::TreePath> {
        let node = self;
        let opt_0 = snap(event, Keyboard("r"), |ev| snap_tab(ev, &node));
        let opt_1 = snap(event, Keyboard("q"), |_| ());
        let mut state = match tab_data(&node) {
            Some(data) => DerivedLevel { parent: node, data }
                .dispatch_into_tree_path(event, effs, claim)
                .to_maybe_invalidated(),
            None => MaybeInvalidated::NotInvalidated(HasTreePath::into_tree_path(node)),
        };
        state = run(opt_0, state, effs, claim, exclusive(on_r));
        state = run(opt_1, state, effs, claim, exclusive(app_home));
        state.complete()
    }
}

/// `pre_post(Keyboard("g") => (snap_tab_thread, exclusive(on_g)))`.
impl<'a> DispatchIntoTreePath<Demo> for DerivedLevel<AppNode<'a>, TabData> {
    fn dispatch_into_tree_path(
        self,
        event: &DemoEvent,
        effs: &mut Vec<usize>,
        claim: &mut Claim<'_>,
    ) -> Completed<<DerivedLevel<AppNode<'a>, TabData> as HasTreePath>::TreePath> {
        let node = self;
        let opt_0 = snap(event, Keyboard("g"), |ev| snap_tab_thread(ev, &node));
        let mut state = MaybeInvalidated::NotInvalidated(HasTreePath::into_tree_path(node));
        state = run(opt_0, state, effs, claim, exclusive(on_g));
        state.complete()
    }
}

impl AccumulateTriggers<Demo> for Root {
    fn accumulate<'a>(
        mut path: <Self as HasPath>::Path<'a>,
        out: &mut HashSet<DemoTrigger>,
    ) -> Result<<Self as HasPath>::Path<'a>, BindError>
    where
        Self: 'a,
    {
        let child = Shell::accumulate(shell_of(path), out)?;
        path = child.into_parent();
        Ok(path)
    }
}

impl AccumulateTriggers<Demo> for Shell {
    fn accumulate<'a>(
        path: <Self as HasPath>::Path<'a>,
        out: &mut HashSet<DemoTrigger>,
    ) -> Result<<Self as HasPath>::Path<'a>, BindError>
    where
        Self: 'a,
    {
        insert_or_error(out, Keyboard("esc").into())?;
        let path = match app_data(&path) {
            Some(data) => DerivedLevel { parent: path, data }.accumulate(out)?,
            None => path,
        };
        Ok(path)
    }
}

impl<'a> AccumulateDerivedTriggers<Demo> for DerivedLevel<ShellPath<'a>, AppData> {
    type Parent = ShellPath<'a>;

    fn accumulate(self, out: &mut HashSet<DemoTrigger>) -> Result<ShellPath<'a>, BindError> {
        let node = self;
        insert_or_error(out, Keyboard("q").into())?;
        let node = match tab_data(&node) {
            Some(data) => DerivedLevel { parent: node, data }.accumulate(out)?,
            None => node,
        };
        Ok(node.parent)
    }
}

impl<'a> AccumulateDerivedTriggers<Demo> for DerivedLevel<AppNode<'a>, TabData> {
    type Parent = AppNode<'a>;

    fn accumulate(self, _out: &mut HashSet<DemoTrigger>) -> Result<AppNode<'a>, BindError> {
        let node = self;
        Ok(node.parent)
    }
}

/// Takes the level's data while the node is whole: descent consumes it, ascent holds only the
/// place beneath.
fn snap_tab(_ev: &KeyEvent, node: &AppNode) -> String {
    node.data.tab.clone()
}

/// Writes the snap into the layer.
fn on_r<'x>(
    ev: &KeyEvent,
    tab: String,
    st: AscendState<'_, ShellPath<'x>>,
) -> (Vec<usize>, Completed<ShellPath<'x>>) {
    match st.state {
        MaybeInvalidated::NotInvalidated(mut shell) => {
            shell.get_mut().log.push_str(&tab);
            (vec![ev.key.len()], shell.complete())
        }
        MaybeInvalidated::Invalidated(c) => (vec![ev.key.len()], c),
    }
}

fn snap_tab_thread(_ev: &KeyEvent, node: &TabNode) -> (String, u32) {
    (node.parent.data.tab.clone(), node.data.thread)
}

fn on_g<'x>(
    ev: &KeyEvent,
    (tab, thread): (String, u32),
    st: AscendState<'_, ShellPath<'x>>,
) -> (Vec<usize>, Completed<ShellPath<'x>>) {
    match st.state {
        MaybeInvalidated::NotInvalidated(mut shell) => {
            shell.get_mut().log.push_str(&format!("{tab}{thread}"));
            (vec![ev.key.len()], shell.complete())
        }
        MaybeInvalidated::Invalidated(c) => (vec![ev.key.len()], c),
    }
}

fn on_esc<'x>(
    _ev: &KeyEvent,
    _snap: (),
    st: AscendState<'_, ShellPath<'x>>,
) -> (Vec<usize>, Completed<ShellPath<'x>>) {
    match st.state {
        MaybeInvalidated::NotInvalidated(mut shell) => {
            shell.get_mut().log.push('e');
            (vec![3], shell.complete())
        }
        MaybeInvalidated::Invalidated(c) => (vec![3], c),
    }
}

fn app_home<'x>(
    _ev: &KeyEvent,
    _snap: (),
    st: AscendState<'_, ShellPath<'x>>,
) -> (Vec<usize>, Completed<ShellPath<'x>>) {
    match st.state {
        MaybeInvalidated::NotInvalidated(shell) => (vec![9], shell.into_parent().complete()),
        MaybeInvalidated::Invalidated(c) => (vec![9], c),
    }
}

fn log_leave<'x>(
    _ev: &KeyEvent,
    _snap: (),
    st: AscendState<'_, ShellPath<'x>>,
) -> (Vec<usize>, Completed<ShellPath<'x>>) {
    match st.state {
        MaybeInvalidated::NotInvalidated(mut shell) => {
            shell.get_mut().log.push('s');
            (vec![], shell.complete())
        }
        MaybeInvalidated::Invalidated(c) => (vec![7], c),
    }
}

fn root(tab: Option<&str>) -> Root {
    Root {
        app: tab.map(|t| Chrome { tab: t.to_owned() }),
        layer: Shell { log: String::new() },
    }
}

#[test]
fn a_derived_level_binds_its_own_keys_and_reaches_the_tree_through_parent() {
    let mut r = root(Some("inbox"));
    assert_eq!(dispatch::<Demo, Root, _>(&mut r, &key("r")), vec![1]);
    assert_eq!(r.layer.log, "inbox");
    assert_eq!(r.app.as_ref().unwrap().tab, "inbox");
}

#[test]
fn a_derived_level_can_have_a_derived_child() {
    let mut r = root(Some("gmail"));
    assert_eq!(dispatch::<Demo, Root, _>(&mut r, &key("g")), vec![1]);
    assert_eq!(r.layer.log, "gmail7");
}

#[test]
fn a_miss_hands_the_parent_back_at_every_level() {
    let mut r = root(Some("gmail"));
    assert_eq!(dispatch::<Demo, Root, _>(&mut r, &key("r")), vec![1]);
    assert_eq!(r.layer.log, "gmail");

    let mut r = root(Some("gmail"));
    assert_eq!(dispatch::<Demo, Root, _>(&mut r, &key("esc")), vec![3]);
    assert_eq!(r.layer.log, "e");
}

#[test]
fn with_no_app_there_is_no_level_and_the_layer_still_works() {
    let mut r = root(None);
    assert_eq!(dispatch::<Demo, Root, _>(&mut r, &key("r")), vec![]);
    assert_eq!(dispatch::<Demo, Root, _>(&mut r, &key("esc")), vec![3]);
    assert_eq!(r.layer.log, "e");
}

#[test]
fn the_check_sees_a_derived_levels_binds() {
    // `r` and `g` are pre-posts; the duplicate-trigger walk collects binds only. Shell's `q` post is absent for
    // the same reason, so it can share a trigger with the app level's bind.
    let mut r = root(Some("gmail"));
    let set: HashSet<_> = accumulate::<Demo, Root>(&mut r).unwrap();
    assert_eq!(set, HashSet::from([kb("esc"), kb("q")]));

    let mut r = root(Some("inbox"));
    let set: HashSet<_> = accumulate::<Demo, Root>(&mut r).unwrap();
    assert_eq!(set, HashSet::from([kb("esc"), kb("q")]));

    let mut r = root(None);
    let set: HashSet<_> = accumulate::<Demo, Root>(&mut r).unwrap();
    assert_eq!(set, HashSet::from([kb("esc")]));
}

#[test]
fn a_leave_from_a_derived_level_reaches_the_place_as_invalidated() {
    let mut r = root(Some("gmail"));
    assert_eq!(dispatch::<Demo, Root, _>(&mut r, &key("q")), vec![9, 7]);
    assert_eq!(r.layer.log, "", "the post's staying arm never ran");
}

#[test]
fn the_post_marks_the_layer_when_nothing_left() {
    let mut r = root(None);
    assert_eq!(dispatch::<Demo, Root, _>(&mut r, &key("q")), vec![]);
    assert_eq!(r.layer.log, "s");
}

// An enum of derived levels: only the live variant is a level.

pub struct Modes {
    pub mode: Option<bool>,
    pub shell: ModeShell,
}

pub struct ModeShell {
    pub log: String,
}

pub enum ModeData {
    On(OnMode),
    Off(OffMode),
}

pub struct OnMode;

pub struct OffMode;

pub type ModesPath<'a> = &'a mut Modes;
pub type ModeShellPath<'a> = Path<ModeShell, ModesPath<'a>>;

impl HasPath for Modes {
    type Path<'a> = ModesPath<'a> where Self: 'a;
}
impl HasPath for ModeShell {
    type Path<'a> = ModeShellPath<'a> where Self: 'a;
}

fn mode_shell_of(modes: ModesPath<'_>) -> ModeShellPath<'_> {
    PathMut::from_fn(modes, |o| &mut o.shell, |o| &o.shell)
}

fn mode_data(path: &ModeShellPath) -> Option<ModeData> {
    let on = path.parent().mode?;
    Some(if on {
        ModeData::On(OnMode)
    } else {
        ModeData::Off(OffMode)
    })
}

/// Child `shell`.
impl Dispatch<Demo> for Modes {
    fn dispatch<'a, 'c>(
        path: <Self as HasPath>::Path<'a>,
        event: &DemoEvent,
        effs: &mut Vec<usize>,
        claim: &mut Claim<'c>,
    ) -> Completed<<Self as HasPath>::Path<'a>>
    where
        Self: 'a,
        <Self as HasPath>::Path<'a>: HasStop,
    {
        let mut state = MaybeInvalidated::NotInvalidated(path);
        state = state.descend(|path| {
            ModeShell::dispatch(mode_shell_of(path), event, effs, claim)
                .into_inner()
                .to_maybe_invalidated()
        });
        state.complete()
    }
}

/// `derived_children(mode_data)`.
impl Dispatch<Demo> for ModeShell {
    fn dispatch<'a, 'c>(
        path: <Self as HasPath>::Path<'a>,
        event: &DemoEvent,
        effs: &mut Vec<usize>,
        claim: &mut Claim<'c>,
    ) -> Completed<<Self as HasPath>::Path<'a>>
    where
        Self: 'a,
        <Self as HasPath>::Path<'a>: HasStop,
    {
        let mut state = MaybeInvalidated::NotInvalidated(path);
        state = state.descend(|path| match mode_data(&path) {
            Some(data) => DerivedLevel { parent: path, data }
                .dispatch_into_tree_path(event, effs, claim)
                .to_maybe_invalidated(),
            None => MaybeInvalidated::NotInvalidated(HasTreePath::into_tree_path(path)),
        });
        state.complete()
    }
}

/// Variants `On`, `Off`, each a level of its own over the shared parent.
impl<'a> DispatchIntoTreePath<Demo> for DerivedLevel<ModeShellPath<'a>, ModeData> {
    fn dispatch_into_tree_path(
        self,
        event: &DemoEvent,
        effs: &mut Vec<usize>,
        claim: &mut Claim<'_>,
    ) -> Completed<<DerivedLevel<ModeShellPath<'a>, ModeData> as HasTreePath>::TreePath> {
        let DerivedLevel { parent, data } = self;
        match data {
            ModeData::On(data) => {
                DerivedLevel { parent, data }.dispatch_into_tree_path(event, effs, claim)
            }
            ModeData::Off(data) => {
                DerivedLevel { parent, data }.dispatch_into_tree_path(event, effs, claim)
            }
        }
    }
}

/// `bind(Keyboard("m") => on_mode_on)`.
impl<'a> DispatchIntoTreePath<Demo> for DerivedLevel<ModeShellPath<'a>, OnMode> {
    fn dispatch_into_tree_path(
        self,
        event: &DemoEvent,
        effs: &mut Vec<usize>,
        claim: &mut Claim<'_>,
    ) -> Completed<<DerivedLevel<ModeShellPath<'a>, OnMode> as HasTreePath>::TreePath> {
        let node = self;
        let opt_0 = snap(event, Keyboard("m"), |_| ());
        let mut state = MaybeInvalidated::NotInvalidated(HasTreePath::into_tree_path(node));
        state = run(opt_0, state, effs, claim, exclusive(on_mode_on));
        state.complete()
    }
}

/// `bind(Keyboard("m") => on_mode_off)`.
impl<'a> DispatchIntoTreePath<Demo> for DerivedLevel<ModeShellPath<'a>, OffMode> {
    fn dispatch_into_tree_path(
        self,
        event: &DemoEvent,
        effs: &mut Vec<usize>,
        claim: &mut Claim<'_>,
    ) -> Completed<<DerivedLevel<ModeShellPath<'a>, OffMode> as HasTreePath>::TreePath> {
        let node = self;
        let opt_0 = snap(event, Keyboard("m"), |_| ());
        let mut state = MaybeInvalidated::NotInvalidated(HasTreePath::into_tree_path(node));
        state = run(opt_0, state, effs, claim, exclusive(on_mode_off));
        state.complete()
    }
}

impl AccumulateTriggers<Demo> for Modes {
    fn accumulate<'a>(
        mut path: <Self as HasPath>::Path<'a>,
        out: &mut HashSet<DemoTrigger>,
    ) -> Result<<Self as HasPath>::Path<'a>, BindError>
    where
        Self: 'a,
    {
        let child = ModeShell::accumulate(mode_shell_of(path), out)?;
        path = child.into_parent();
        Ok(path)
    }
}

impl AccumulateTriggers<Demo> for ModeShell {
    fn accumulate<'a>(
        path: <Self as HasPath>::Path<'a>,
        out: &mut HashSet<DemoTrigger>,
    ) -> Result<<Self as HasPath>::Path<'a>, BindError>
    where
        Self: 'a,
    {
        let path = match mode_data(&path) {
            Some(data) => DerivedLevel { parent: path, data }.accumulate(out)?,
            None => path,
        };
        Ok(path)
    }
}

impl<'a> AccumulateDerivedTriggers<Demo> for DerivedLevel<ModeShellPath<'a>, ModeData> {
    type Parent = ModeShellPath<'a>;

    fn accumulate(self, out: &mut HashSet<DemoTrigger>) -> Result<ModeShellPath<'a>, BindError> {
        let DerivedLevel { parent, data } = self;
        match data {
            ModeData::On(data) => DerivedLevel { parent, data }.accumulate(out),
            ModeData::Off(data) => DerivedLevel { parent, data }.accumulate(out),
        }
    }
}

impl<'a> AccumulateDerivedTriggers<Demo> for DerivedLevel<ModeShellPath<'a>, OnMode> {
    type Parent = ModeShellPath<'a>;

    fn accumulate(self, out: &mut HashSet<DemoTrigger>) -> Result<ModeShellPath<'a>, BindError> {
        let node = self;
        insert_or_error(out, Keyboard("m").into())?;
        Ok(node.parent)
    }
}

impl<'a> AccumulateDerivedTriggers<Demo> for DerivedLevel<ModeShellPath<'a>, OffMode> {
    type Parent = ModeShellPath<'a>;

    fn accumulate(self, out: &mut HashSet<DemoTrigger>) -> Result<ModeShellPath<'a>, BindError> {
        let node = self;
        insert_or_error(out, Keyboard("m").into())?;
        Ok(node.parent)
    }
}

fn on_mode_on<'x>(
    ev: &KeyEvent,
    _snap: (),
    st: AscendState<'_, ModeShellPath<'x>>,
) -> (Vec<usize>, Completed<ModeShellPath<'x>>) {
    match st.state {
        MaybeInvalidated::NotInvalidated(mut shell) => {
            shell.get_mut().log.push_str("on");
            (vec![ev.key.len()], shell.complete())
        }
        MaybeInvalidated::Invalidated(c) => (vec![ev.key.len()], c),
    }
}

fn on_mode_off<'x>(
    ev: &KeyEvent,
    _snap: (),
    st: AscendState<'_, ModeShellPath<'x>>,
) -> (Vec<usize>, Completed<ModeShellPath<'x>>) {
    match st.state {
        MaybeInvalidated::NotInvalidated(mut shell) => {
            shell.get_mut().log.push_str("off");
            (vec![ev.key.len()], shell.complete())
        }
        MaybeInvalidated::Invalidated(c) => (vec![ev.key.len()], c),
    }
}

const fn modes(mode: Option<bool>) -> Modes {
    Modes {
        mode,
        shell: ModeShell { log: String::new() },
    }
}

#[test]
fn the_live_variant_of_a_derived_enum_handles_the_key() {
    let mut m = modes(Some(true));
    assert_eq!(dispatch::<Demo, Modes, _>(&mut m, &key("m")), vec![1]);
    assert_eq!(m.shell.log, "on");

    let mut m = modes(Some(false));
    assert_eq!(dispatch::<Demo, Modes, _>(&mut m, &key("m")), vec![1]);
    assert_eq!(m.shell.log, "off");
}

#[test]
fn no_mode_is_no_level_at_all() {
    let mut m = modes(None);
    assert_eq!(dispatch::<Demo, Modes, _>(&mut m, &key("m")), vec![]);
    assert_eq!(m.shell.log, "");
}

#[test]
fn the_check_sees_only_the_live_variants_trigger() {
    let mut m = modes(Some(true));
    let set: HashSet<_> = accumulate::<Demo, Modes>(&mut m).unwrap();
    assert_eq!(set, HashSet::from([kb("m")]));

    let mut m = modes(None);
    let set: HashSet<_> = accumulate::<Demo, Modes>(&mut m).unwrap();
    assert_eq!(set, HashSet::new());
}
