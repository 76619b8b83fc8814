//! An ordered run of bare keys that the caller acts on when it completes.

use crate::keys::{Key, KeyEvent, KeyPress, PressType};
use crate::timer::TimerGuard;
use std::time::Duration;
use vstd::prelude::*;

verus! {

/// Downs among `presses`: how far a run has matched.
pub open spec fn count_downs(presses: Seq<KeyPress>) -> nat
    decreases presses.len(),
{
    if presses.len() == 0 {
        0
    } else {
        count_downs(presses.drop_last()) + (if presses.last().press == PressType::Down { 1nat } else { 0nat })
    }
}

/// Whether the last press of `key` among `presses` is a down: the key is still held.
pub open spec fn held_down(presses: Seq<KeyPress>, key: Key) -> bool
    decreases presses.len(),
{
    if presses.len() == 0 {
        false
    } else if presses.last().key == key {
        presses.last().press == PressType::Down
    } else {
        held_down(presses.drop_last(), key)
    }
}

/// What one key does to a run, before its outcome carries the presses.
#[derive(PartialEq, Eq, Structural, Clone, Copy, Debug)]
pub enum SequenceStep {
    /// The key is swallowed.
    Advance,
    /// The run breaks and replays.
    Pass,
    /// The last key lands.
    Complete,
}

/// What `ev` does to a run of `keys` that has swallowed `presses`.
pub open spec fn step_of(keys: Seq<Key>, presses: Seq<KeyPress>, ev: KeyEvent) -> SequenceStep {
    let matched = count_downs(presses);
    if ev.flags@ != 0 {
        SequenceStep::Pass
    } else if ev.press == PressType::Down && ev.key == keys[matched as int] && !held_down(presses, ev.key) {
        if matched + 1 == keys.len() {
            SequenceStep::Complete
        } else {
            SequenceStep::Advance
        }
    } else if ev.press == PressType::Up && held_down(presses, ev.key) {
        SequenceStep::Advance
    } else {
        SequenceStep::Pass
    }
}

/// The presses a run holds after `ev`.
pub open spec fn presses_after(keys: Seq<Key>, presses: Seq<KeyPress>, ev: KeyEvent) -> Seq<KeyPress> {
    match step_of(keys, presses, ev) {
        SequenceStep::Advance => presses.push(KeyPress { key: ev.key, press: ev.press }),
        _ => Seq::empty(),
    }
}

/// Runs `evs` through a run of `keys` that starts with `presses` swallowed: the presses it ends
/// with and what each event did.
pub open spec fn run_events(keys: Seq<Key>, presses: Seq<KeyPress>, evs: Seq<KeyEvent>) -> (Seq<KeyPress>, Seq<SequenceStep>)
    decreases evs.len(),
{
    if evs.len() == 0 {
        (presses, Seq::empty())
    } else {
        let (before, steps) = run_events(keys, presses, evs.drop_last());
        (presses_after(keys, before, evs.last()), steps.push(step_of(keys, before, evs.last())))
    }
}

/// Press `i` of `presses` is `key` going down, and no later press names `key`.
pub open spec fn down_and_not_since(presses: Seq<KeyPress>, key: Key, i: int) -> bool {
    &&& 0 <= i < presses.len()
    &&& presses[i] == (KeyPress { key, press: PressType::Down })
    &&& forall|j: int| i < j < presses.len() ==> (#[trigger] presses[j]).key != key
}

/// `key` is held in `presses`: some press of it went down and no later press names it.
pub open spec fn last_press_is_down(presses: Seq<KeyPress>, key: Key) -> bool {
    exists|i: int| #[trigger] down_and_not_since(presses, key, i)
}

proof fn lemma_held_down_has_a_last_down(presses: Seq<KeyPress>, key: Key)
    requires
        held_down(presses, key),
    ensures
        last_press_is_down(presses, key),
    decreases presses.len(),
{
    let n = presses.len() - 1;
    let rest = presses.drop_last();
    if presses.last().key == key {
        assert(down_and_not_since(presses, key, n));
    } else {
        lemma_held_down_has_a_last_down(rest, key);
        let i = choose|i: int| #[trigger] down_and_not_since(rest, key, i);
        assert forall|j: int| i < j < presses.len() implies (#[trigger] presses[j]).key != key by {
            if j < n {
                assert(presses[j] == rest[j]);
            }
        }
        assert(down_and_not_since(presses, key, i));
    }
}

proof fn lemma_a_last_down_is_held(presses: Seq<KeyPress>, key: Key, i: int)
    requires
        down_and_not_since(presses, key, i),
    ensures
        held_down(presses, key),
    decreases presses.len(),
{
    let n = presses.len() - 1;
    let rest = presses.drop_last();
    if i == n {
    } else {
        assert(presses[n].key != key);
        assert forall|j: int| i < j < rest.len() implies (#[trigger] rest[j]).key != key by {
            assert(rest[j] == presses[j]);
        }
        assert(rest[i] == presses[i]);
        lemma_a_last_down_is_held(rest, key, i);
    }
}

proof fn lemma_held_down_is_last_press_down(presses: Seq<KeyPress>, key: Key)
    ensures
        held_down(presses, key) <==> last_press_is_down(presses, key),
{
    if held_down(presses, key) {
        lemma_held_down_has_a_last_down(presses, key);
    }
    if last_press_is_down(presses, key) {
        let i = choose|i: int| #[trigger] down_and_not_since(presses, key, i);
        lemma_a_last_down_is_held(presses, key, i);
    }
}

/// A release is swallowed only for a key the run still holds: a bare Up advances the run
/// exactly when the last press of that key among those swallowed went down, never completes
/// it, and otherwise breaks it. A modified event always breaks it.
pub proof fn law_an_up_is_swallowed_only_for_a_key_the_run_holds(
    keys: Seq<Key>,
    presses: Seq<KeyPress>,
    ev: KeyEvent,
)
    requires
        ev.press == PressType::Up,
    ensures
        step_of(keys, presses, ev) != SequenceStep::Complete,
        step_of(keys, presses, ev) == SequenceStep::Advance <==> ev.flags@ == 0 && last_press_is_down(
            presses,
            ev.key,
        ),
{
    lemma_held_down_is_last_press_down(presses, ev.key);
}

/// Whether a press is a down.
pub open spec fn is_down_press(p: KeyPress) -> bool {
    p.press == PressType::Down
}

proof fn lemma_count_downs_is_the_downs(presses: Seq<KeyPress>)
    ensures
        count_downs(presses) == presses.filter(|p: KeyPress| is_down_press(p)).len(),
    decreases presses.len(),
{
    reveal(Seq::filter);
    if presses.len() > 0 {
        lemma_count_downs_is_the_downs(presses.drop_last());
    }
}

/// A bare press advances the run only as its next key: it is swallowed exactly when it is the
/// key after as many as have gone down so far and that key is not already held, and it
/// completes the run exactly when it is the last key. Anything else breaks the run.
pub proof fn law_a_down_advances_only_as_the_next_key(keys: Seq<Key>, presses: Seq<KeyPress>, ev: KeyEvent)
    requires
        ev.press == PressType::Down,
        presses.filter(|p: KeyPress| is_down_press(p)).len() < keys.len(),
    ensures
        ({
            let matched = presses.filter(|p: KeyPress| is_down_press(p)).len();
            let lands = ev.flags@ == 0 && ev.key == keys[matched as int] && !last_press_is_down(presses, ev.key);
            &&& (step_of(keys, presses, ev) != SequenceStep::Pass) == lands
            &&& (step_of(keys, presses, ev) == SequenceStep::Complete) == (lands && matched + 1 == keys.len())
        }),
{
    lemma_count_downs_is_the_downs(presses);
    lemma_held_down_is_last_press_down(presses, ev.key);
}

/// A bare event.
pub open spec fn bare_event(key: Key, press: PressType) -> KeyEvent {
    KeyEvent { key, press, flags: crate::keys::ModifierFlags::spec_empty() }
}

/// Each of the first `i` keys pressed and released, in order.
pub open spec fn taps(keys: Seq<Key>, i: nat) -> Seq<KeyEvent>
    decreases i,
{
    if i == 0 {
        Seq::empty()
    } else {
        taps(keys, (i - 1) as nat).push(bare_event(keys[i - 1], PressType::Down)).push(
            bare_event(keys[i - 1], PressType::Up),
        )
    }
}

/// The presses those taps leave swallowed.
pub open spec fn tap_presses(keys: Seq<Key>, i: nat) -> Seq<KeyPress>
    decreases i,
{
    if i == 0 {
        Seq::empty()
    } else {
        tap_presses(keys, (i - 1) as nat).push(KeyPress { key: keys[i - 1], press: PressType::Down }).push(
            KeyPress { key: keys[i - 1], press: PressType::Up },
        )
    }
}

proof fn lemma_tap_presses(keys: Seq<Key>, i: nat, k: Key)
    ensures
        count_downs(tap_presses(keys, i)) == i,
        !held_down(tap_presses(keys, i), k),
    decreases i,
{
    if i > 0 {
        lemma_tap_presses(keys, (i - 1) as nat, k);
        let p = tap_presses(keys, (i - 1) as nat);
        let pd = p.push(KeyPress { key: keys[i - 1], press: PressType::Down });
        let pu = pd.push(KeyPress { key: keys[i - 1], press: PressType::Up });
        assert(pu.drop_last() =~= pd);
        assert(pd.drop_last() =~= p);
        assert(tap_presses(keys, i) == pu);
        assert(count_downs(pd) == count_downs(p) + 1);
        assert(count_downs(pu) == count_downs(pd));
        if k != keys[i - 1] {
            assert(held_down(pd, k) == held_down(p, k));
        }
    }
}

proof fn lemma_taps_advance(keys: Seq<Key>, i: nat)
    requires
        i < keys.len(),
    ensures
        run_events(keys, Seq::empty(), taps(keys, i)) == (tap_presses(keys, i), Seq::new(2 * i, |j: int| SequenceStep::Advance)),
    decreases i,
{
    crate::keys::ModifierFlags::lemma_bits_determine(crate::keys::ModifierFlags::spec_empty(), crate::keys::ModifierFlags::spec_empty());
    if i > 0 {
        let prev = (i - 1) as nat;
        lemma_taps_advance(keys, prev);
        let k = keys[i - 1];
        lemma_tap_presses(keys, prev, k);
        let p = tap_presses(keys, prev);
        let e = taps(keys, prev);
        let down = bare_event(k, PressType::Down);
        let up = bare_event(k, PressType::Up);
        let ed = e.push(down);
        let eu = ed.push(up);
        assert(eu.drop_last() =~= ed);
        assert(ed.drop_last() =~= e);
        let pd = p.push(KeyPress { key: k, press: PressType::Down });
        assert(pd.drop_last() =~= p);
        assert(step_of(keys, p, down) == SequenceStep::Advance);
        assert(held_down(pd, k));
        assert(step_of(keys, pd, up) == SequenceStep::Advance);
        assert(taps(keys, i) == eu);
        let r0 = run_events(keys, Seq::empty(), e);
        let r1 = run_events(keys, Seq::empty(), ed);
        assert(r1.0 == presses_after(keys, r0.0, down));
        assert(r1.0 == pd);
        assert(r1.1 == r0.1.push(SequenceStep::Advance));
        let r2 = run_events(keys, Seq::empty(), eu);
        assert(r2.0 == presses_after(keys, r1.0, up));
        assert(r2.1 == r1.1.push(SequenceStep::Advance));
        assert(r2.1 =~= Seq::new(2 * i, |j: int| SequenceStep::Advance));
        assert(r2.0 =~= tap_presses(keys, i));
    }
}

/// Tapping every key of the run in order, bare, with the last one only pressed: every event is
/// swallowed and the last one completes the run, which ends idle.
pub proof fn law_taps_in_order_complete(keys: Seq<Key>)
    requires
        keys.len() > 0,
    ensures
        ({
            let n = (keys.len() - 1) as nat;
            let evs = taps(keys, n).push(bare_event(keys[n as int], PressType::Down));
            let (after, steps) = run_events(keys, Seq::empty(), evs);
            &&& after == Seq::<KeyPress>::empty()
            &&& steps.len() == 2 * n + 1
            &&& forall|j: int| 0 <= j < 2 * n ==> steps[j] == SequenceStep::Advance
            &&& steps[2 * n as int] == SequenceStep::Complete
        }),
{
    let n = (keys.len() - 1) as nat;
    crate::keys::ModifierFlags::lemma_bits_determine(crate::keys::ModifierFlags::spec_empty(), crate::keys::ModifierFlags::spec_empty());
    lemma_taps_advance(keys, n);
    lemma_tap_presses(keys, n, keys[n as int]);
    let evs = taps(keys, n).push(bare_event(keys[n as int], PressType::Down));
    assert(evs.drop_last() =~= taps(keys, n));
}

/// A run that breaks hands back exactly what it swallowed and starts over idle; a modified
/// key always breaks it.
pub proof fn law_a_break_replays_and_resets(keys: Seq<Key>, presses: Seq<KeyPress>, ev: KeyEvent)
    ensures
        ev.flags@ != 0 ==> step_of(keys, presses, ev) == SequenceStep::Pass,
        step_of(keys, presses, ev) != SequenceStep::Advance ==> presses_after(keys, presses, ev) == Seq::<KeyPress>::empty(),
        step_of(keys, presses, ev) == SequenceStep::Advance ==> presses_after(keys, presses, ev).drop_last() == presses,
{
    if step_of(keys, presses, ev) == SequenceStep::Advance {
        assert(presses_after(keys, presses, ev).drop_last() =~= presses);
    }
}

/// A key still held never advances the run again: auto-repeat breaks it.
pub proof fn law_repeat_of_a_held_key_breaks(keys: Seq<Key>, presses: Seq<KeyPress>, ev: KeyEvent)
    requires
        ev.press == PressType::Down,
        held_down(presses, ev.key),
    ensures
        step_of(keys, presses, ev) == SequenceStep::Pass,
{
}

/// The names of the keys pressed down among `presses`, in arrival order.
pub open spec fn down_names(presses: Seq<KeyPress>) -> Seq<Seq<char>>
    decreases presses.len(),
{
    if presses.len() == 0 {
        Seq::empty()
    } else {
        down_names(presses.drop_last()) + (if presses.last().press == PressType::Down {
            seq![presses.last().key.readable()]
        } else {
            Seq::empty()
        })
    }
}

/// ` A, B`: each name after a space, the later ones after a comma.
pub open spec fn listed(names: Seq<Seq<char>>) -> Seq<char>
    decreases names.len(),
{
    if names.len() == 0 {
        Seq::empty()
    } else if names.len() == 1 {
        " "@ + names[0]
    } else {
        listed(names.drop_last()) + ", "@ + names.last()
    }
}

/// How long a run waits for its next key, and what cancels that wait.
struct Window {
    duration: Duration,
    /// Armed while a run is live. Dropping it cancels the wait.
    timer: Option<TimerGuard>,
}

/// A run of keys that means something other than what it types: `jk`, say.
///
/// Each key is swallowed until the run breaks (swallowed keys replay) or completes
/// (they are dropped and the caller acts). Any modifier flag breaks it. Keys may
/// overlap: the next may go down before the previous comes up.
pub struct KeySequence {
    keys: &'static [Key],
    window: Option<Window>,
    /// Swallowed presses in arrival order. Empty when idle.
    swallowed: Vec<KeyPress>,
}

/// What one key did to a [`KeySequence`].
#[derive(Debug, PartialEq, Eq)]
pub enum KeySequenceOutcome {
    /// The key belongs to the run: it was swallowed.
    Advanced,
    /// The key is not part of the run. These presses replay, then the caller emits the key.
    /// Empty when the run was idle.
    Passed(Vec<KeyPress>),
    /// The last key landed. Swallowed keys are dropped; the caller acts.
    Completed,
}

impl KeySequence {
    /// The keys of the run.
    pub closed spec fn keys(&self) -> Seq<Key> {
        self.keys@
    }

    /// What the run has swallowed, in arrival order.
    pub closed spec fn swallowed(&self) -> Seq<KeyPress> {
        self.swallowed@
    }

    /// The wait between keys, if this sequence has one.
    pub closed spec fn window_length(&self) -> Option<Duration> {
        match self.window {
            Some(w) => Some(w.duration),
            None => None,
        }
    }

    /// Whether a window timer guard is held.
    pub closed spec fn armed(&self) -> bool {
        self.window matches Some(w) && w.timer is Some
    }

    /// The id of the held window timer.
    pub closed spec fn armed_id(&self) -> crate::timer::TimerId {
        self.window->0.timer->0.id()
    }

    /// A run is well formed: it has keys, has matched fewer than all of them, and holds a
    /// timer only while live.
    pub closed spec fn wf(&self) -> bool {
        &&& self.keys@.len() > 0
        &&& count_downs(self.swallowed@) < self.keys@.len()
        &&& self.armed() ==> self.swallowed@.len() > 0
    }

    /// A sequence of `keys`, idle. `keys` must not be empty.
    pub fn new(keys: &'static [Key], window: Option<Duration>) -> (r: Self)
        requires
            keys@.len() > 0,
        ensures
            r.wf(),
            r.keys() == keys@,
            r.swallowed() == Seq::<KeyPress>::empty(),
            r.window_length() == window,
            !r.armed(),
    {
        let window = match window {
            Some(duration) => Some(Window { duration, timer: None }),
            None => None,
        };
        KeySequence { keys, window, swallowed: Vec::new() }
    }

    /// The guard for a live run's window timer, or `None` when idle or this sequence has no window.
    pub fn window_timer(&self) -> (r: Option<&TimerGuard>)
        ensures
            r is Some == self.armed(),
            r is Some ==> r->0.id() == self.armed_id(),
    {
        match &self.window {
            Some(w) => match &w.timer {
                Some(t) => Some(t),
                None => None,
            },
            None => None,
        }
    }

    /// How long a run of this sequence waits for its next key, or `None` if it waits forever.
    pub fn window(&self) -> (r: Option<Duration>)
        ensures
            r == self.window_length(),
    {
        match &self.window {
            Some(w) => Some(w.duration),
            None => None,
        }
    }

    /// Give the live run the guard for its window. Dropping the run cancels the wait.
    /// A run must be in progress, and this sequence must have a window.
    pub fn hold(&mut self, guard: TimerGuard)
        requires
            old(self).wf(),
            old(self).swallowed().len() > 0,
            old(self).window_length() is Some,
        ensures
            final(self).wf(),
            final(self).keys() == old(self).keys(),
            final(self).swallowed() == old(self).swallowed(),
            final(self).window_length() == old(self).window_length(),
            final(self).armed(),
            final(self).armed_id() == guard.id(),
    {
        match &mut self.window {
            Some(w) => {
                w.timer = Some(guard);
            },
            None => {},
        }
    }

    /// Whether the run has swallowed nothing.
    pub fn is_idle(&self) -> (r: bool)
        ensures
            r == (self.swallowed().len() == 0),
    {
        self.swallowed.len() == 0
    }

    /// Keys matched so far: `KeySequence { KeyJ }`, or `KeySequence {}` when idle.
    pub open spec fn readable(&self) -> Seq<char> {
        let names = down_names(self.swallowed());
        "KeySequence {"@ + listed(names) + (if names.len() > 0 { " }"@ } else { "}"@ })
    }

    pub fn debug_string(&self) -> (r: String)
        ensures
            r@ == self.readable(),
    {
        let mut out = String::from_str("KeySequence {");
        let mut any = false;
        let mut i: usize = 0;
        while i < self.swallowed.len()
            invariant
                i <= self.swallowed@.len(),
                any == (down_names(self.swallowed@.take(i as int)).len() > 0),
                out@ == "KeySequence {"@ + listed(down_names(self.swallowed@.take(i as int))),
            decreases self.swallowed@.len() - i,
        {
            let p = self.swallowed[i];
            let ghost names = down_names(self.swallowed@.take(i as int));
            proof {
                assert(self.swallowed@.take(i + 1).drop_last() =~= self.swallowed@.take(i as int));
            }
            if p.press == PressType::Down {
                let ghost pushed = names.push(p.key.readable());
                proof {
                    assert(pushed.drop_last() =~= names);
                    assert(down_names(self.swallowed@.take(i + 1)) =~= pushed);
                }
                if any {
                    out.append(", ");
                } else {
                    out.append(" ");
                }
                out.append(&p.key.debug_string());
                any = true;
                proof {
                    if names.len() > 0 {
                        assert(out@ =~= "KeySequence {"@ + listed(names) + ", "@ + p.key.readable());
                    } else {
                        assert(out@ =~= "KeySequence {"@ + " "@ + p.key.readable());
                    }
                }
            } else {
                proof {
                    assert(down_names(self.swallowed@.take(i + 1)) =~= names);
                }
            }
            i = i + 1;
        }
        proof {
            assert(self.swallowed@.take(i as int) =~= self.swallowed@);
        }
        if any {
            out.append(" }");
        } else {
            out.append("}");
        }
        out
    }

    /// Feed one key event to the run.
    pub fn advance(&mut self, ev: &KeyEvent) -> (r: KeySequenceOutcome)
        requires
            old(self).wf(),
        ensures
            final(self).wf(),
            final(self).keys() == old(self).keys(),
            final(self).window_length() == old(self).window_length(),
            final(self).swallowed() == presses_after(old(self).keys(), old(self).swallowed(), *ev),
            match step_of(old(self).keys(), old(self).swallowed(), *ev) {
                SequenceStep::Advance => r is Advanced && final(self).armed() == old(self).armed()
                    && (final(self).armed() ==> final(self).armed_id() == old(self).armed_id()),
                SequenceStep::Pass => r matches KeySequenceOutcome::Passed(v) && v@ == old(self).swallowed()
                    && !final(self).armed(),
                SequenceStep::Complete => r is Completed && !final(self).armed(),
            },
    {
        if !ev.flags.is_empty() {
            return KeySequenceOutcome::Passed(self.interrupt());
        }
        let matched = self.matched();
        match ev.press {
            PressType::Down => {
                if ev.key == self.keys[matched] && !self.is_down(ev.key) {
                    let ghost before = self.swallowed@;
                    self.swallowed.push(ev.key.down());
                    proof {
                        assert(self.swallowed@.drop_last() =~= before);
                    }
                    if matched + 1 == self.keys.len() {
                        self.swallowed = Vec::new();
                        self.disarm();
                        KeySequenceOutcome::Completed
                    } else {
                        KeySequenceOutcome::Advanced
                    }
                } else {
                    KeySequenceOutcome::Passed(self.interrupt())
                }
            },
            PressType::Up => {
                if self.is_down(ev.key) {
                    let ghost before = self.swallowed@;
                    self.swallowed.push(ev.key.up());
                    proof {
                        assert(self.swallowed@.drop_last() =~= before);
                    }
                    KeySequenceOutcome::Advanced
                } else {
                    KeySequenceOutcome::Passed(self.interrupt())
                }
            },
        }
    }

    /// End the run and hand back what it swallowed, in arrival order.
    pub fn interrupt(&mut self) -> (r: Vec<KeyPress>)
        requires
            old(self).wf(),
        ensures
            final(self).wf(),
            r@ == old(self).swallowed(),
            final(self).swallowed() == Seq::<KeyPress>::empty(),
            final(self).keys() == old(self).keys(),
            final(self).window_length() == old(self).window_length(),
            !final(self).armed(),
    {
        self.disarm();
        let mut taken = Vec::new();
        std::mem::swap(&mut taken, &mut self.swallowed);
        taken
    }

    fn disarm(&mut self)
        ensures
            !final(self).armed(),
            final(self).keys == old(self).keys,
            final(self).swallowed == old(self).swallowed,
            final(self).window_length() == old(self).window_length(),
    {
        match &mut self.window {
            Some(w) => {
                w.timer = None;
            },
            None => {},
        }
    }

    fn matched(&self) -> (r: usize)
        requires
            self.wf(),
        ensures
            r == count_downs(self.swallowed@),
    {
        let mut count: usize = 0;
        let mut i: usize = 0;
        while i < self.swallowed.len()
            invariant
                self.wf(),
                i <= self.swallowed@.len(),
                count == count_downs(self.swallowed@.take(i as int)),
                count <= i,
            decreases self.swallowed@.len() - i,
        {
            proof {
                assert(self.swallowed@.take(i + 1).drop_last() =~= self.swallowed@.take(i as int));
            }
            if self.swallowed[i].press == PressType::Down {
                count = count + 1;
            }
            i = i + 1;
        }
        proof {
            assert(self.swallowed@.take(i as int) =~= self.swallowed@);
        }
        count
    }

    fn is_down(&self, key: Key) -> (r: bool)
        ensures
            r == held_down(self.swallowed@, key),
    {
        let mut i: usize = self.swallowed.len();
        proof {
            assert(self.swallowed@.take(i as int) =~= self.swallowed@);
        }
        while i > 0
            invariant
                i <= self.swallowed@.len(),
                held_down(self.swallowed@, key) == held_down(self.swallowed@.take(i as int), key),
            decreases i,
        {
            let p = self.swallowed[i - 1];
            proof {
                assert(self.swallowed@.take(i as int).drop_last() =~= self.swallowed@.take(i - 1));
            }
            if p.key == key {
                return p.press == PressType::Down;
            }
            i = i - 1;
        }
        false
    }
}

} // verus!
