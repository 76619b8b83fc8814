use freddie::keys::{Key, KeyEvent, ModifierFlags, PressType};
use freddie::sequence::{KeySequence, KeySequenceOutcome};
use freddie::timer::{timer_effect_and_guard_with_id, TimerId};
use std::time::Duration;

static JK: [Key; 2] = [Key::KeyJ, Key::KeyK];
static JJ: [Key; 2] = [Key::KeyJ, Key::KeyJ];

fn bare(key: Key, press: PressType) -> KeyEvent {
    KeyEvent {
        key,
        press,
        flags: ModifierFlags::empty(),
    }
}

#[test]
fn a_tapped_run_completes_and_drops_what_it_swallowed() {
    let mut seq = KeySequence::new(&JK, None);
    assert!(seq.is_idle());
    assert_eq!(seq.advance(&bare(Key::KeyJ, PressType::Down)), KeySequenceOutcome::Advanced);
    assert_eq!(seq.debug_string(), "KeySequence { KeyJ }");
    assert_eq!(seq.advance(&bare(Key::KeyJ, PressType::Up)), KeySequenceOutcome::Advanced);
    assert_eq!(seq.advance(&bare(Key::KeyK, PressType::Down)), KeySequenceOutcome::Completed);
    assert!(seq.is_idle());
    assert_eq!(seq.debug_string(), "KeySequence {}");
}

#[test]
fn overlapping_keys_still_complete() {
    let mut seq = KeySequence::new(&JK, None);
    assert_eq!(seq.advance(&bare(Key::KeyJ, PressType::Down)), KeySequenceOutcome::Advanced);
    assert_eq!(seq.advance(&bare(Key::KeyK, PressType::Down)), KeySequenceOutcome::Completed);
}

#[test]
fn a_foreign_key_replays_the_run_in_order() {
    let mut seq = KeySequence::new(&JK, None);
    let _ = seq.advance(&bare(Key::KeyJ, PressType::Down));
    let _ = seq.advance(&bare(Key::KeyJ, PressType::Up));
    match seq.advance(&bare(Key::KeyL, PressType::Down)) {
        KeySequenceOutcome::Passed(replay) => {
            assert_eq!(replay, vec![Key::KeyJ.down(), Key::KeyJ.up()]);
        }
        other => panic!("expected a replay, got {other:?}"),
    }
    assert!(seq.is_idle());
}

#[test]
fn a_modifier_breaks_the_run() {
    let mut seq = KeySequence::new(&JK, None);
    let _ = seq.advance(&bare(Key::KeyJ, PressType::Down));
    let shifted = KeyEvent {
        key: Key::KeyK,
        press: PressType::Down,
        flags: ModifierFlags::shift(),
    };
    assert_eq!(
        seq.advance(&shifted),
        KeySequenceOutcome::Passed(vec![Key::KeyJ.down()])
    );
}

#[test]
fn an_idle_run_passes_with_nothing_to_replay() {
    let mut seq = KeySequence::new(&JK, None);
    assert_eq!(
        seq.advance(&bare(Key::KeyK, PressType::Down)),
        KeySequenceOutcome::Passed(Vec::new())
    );
}

#[test]
fn auto_repeat_of_a_held_key_breaks_a_repeating_run() {
    let mut seq = KeySequence::new(&JJ, None);
    assert_eq!(seq.advance(&bare(Key::KeyJ, PressType::Down)), KeySequenceOutcome::Advanced);
    assert_eq!(
        seq.advance(&bare(Key::KeyJ, PressType::Down)),
        KeySequenceOutcome::Passed(vec![Key::KeyJ.down()])
    );
    assert_eq!(seq.advance(&bare(Key::KeyJ, PressType::Down)), KeySequenceOutcome::Advanced);
    assert_eq!(seq.advance(&bare(Key::KeyJ, PressType::Up)), KeySequenceOutcome::Advanced);
    assert_eq!(seq.advance(&bare(Key::KeyJ, PressType::Down)), KeySequenceOutcome::Completed);
}

#[test]
fn the_window_guard_lives_only_while_the_run_does() {
    let mut seq = KeySequence::new(&JK, Some(Duration::from_millis(300)));
    assert_eq!(seq.window(), Some(Duration::from_millis(300)));
    assert!(seq.window_timer().is_none());
    let _ = seq.advance(&bare(Key::KeyJ, PressType::Down));
    let (guard, effect) = timer_effect_and_guard_with_id(TimerId::from_raw(3), Duration::from_millis(300), ());
    assert_eq!(effect.delay, Duration::from_millis(300));
    seq.hold(guard);
    assert!(seq.window_timer().is_some());
    let _ = seq.advance(&bare(Key::KeyJ, PressType::Up));
    assert!(seq.window_timer().is_some());
    let replay = seq.interrupt();
    assert_eq!(replay, vec![Key::KeyJ.down(), Key::KeyJ.up()]);
    assert!(seq.window_timer().is_none());
}

#[test]
fn a_single_key_sequence_completes_at_once() {
    static ESC: [Key; 1] = [Key::Escape];
    let mut seq = KeySequence::new(&ESC, None);
    assert_eq!(seq.window(), None);
    assert_eq!(seq.advance(&bare(Key::Escape, PressType::Down)), KeySequenceOutcome::Completed);
    assert_eq!(
        seq.advance(&bare(Key::Escape, PressType::Up)),
        KeySequenceOutcome::Passed(Vec::new())
    );
}
