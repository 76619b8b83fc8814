use freddie::keys::{Key, KeyEvent, ModifierFlags, PressType};
use freddie::remaps::{invert_shift, AloneOrModifier};

#[test]
fn alone_is_escape() {
    let mut c = AloneOrModifier::escape_control();
    assert!(c.on_hold(PressType::Down).is_empty());
    assert!(c.is_pending());
    let out = c.on_hold(PressType::Up);
    assert_eq!(out.len(), 2);
    assert_eq!(out[0].key, Key::Escape);
    assert_eq!(out[0].press, PressType::Down);
    assert_eq!(out[1].key, Key::Escape);
    assert_eq!(out[1].press, PressType::Up);
    assert!(!c.is_modifier());
    assert!(!c.is_pending());
}

#[test]
fn with_other_key_is_control() {
    let mut c = AloneOrModifier::escape_control();
    assert!(c.on_hold(PressType::Down).is_empty());
    let prefix = c.promote_if_pending();
    assert_eq!(prefix.len(), 1);
    assert_eq!(prefix[0].key, Key::ControlLeft);
    assert_eq!(prefix[0].press, PressType::Down);
    assert!(c.is_modifier());
    let flags = c.stamp(ModifierFlags::empty());
    assert!(flags.contains(ModifierFlags::control()));
    assert!(c.promote_if_pending().is_empty());
    let release = c.on_hold(PressType::Up);
    assert_eq!(release.len(), 1);
    assert_eq!(release[0].key, Key::ControlLeft);
    assert_eq!(release[0].press, PressType::Up);
}

#[test]
fn left_shift_alone_is_open_paren() {
    let mut s = AloneOrModifier::left_shift_open_paren();
    assert_eq!(s.hold(), Key::ShiftLeft);
    assert!(s.on_hold(PressType::Down).is_empty());
    let out = s.on_hold(PressType::Up);
    assert_eq!(out.len(), 2);
    assert_eq!(out[0].key, Key::Num9);
    assert!(out[0].flags.contains(ModifierFlags::shift()));
    assert_eq!(out[1].key, Key::Num9);
    assert!(out[1].flags.contains(ModifierFlags::shift()));
}

#[test]
fn left_shift_with_letter_is_real_shift() {
    let mut s = AloneOrModifier::left_shift_open_paren();
    assert!(s.on_hold(PressType::Down).is_empty());
    let prefix = s.promote_if_pending();
    assert_eq!(prefix[0].key, Key::ShiftLeft);
    assert!(s
        .stamp(ModifierFlags::empty())
        .contains(ModifierFlags::shift()));
}

#[test]
fn idle_up_is_noop() {
    let mut c = AloneOrModifier::escape_control();
    assert!(c.on_hold(PressType::Up).is_empty());
}

#[test]
fn debug_prints_phase_only() {
    let mut c = AloneOrModifier::escape_control();
    assert_eq!(c.debug_string(), "AloneOrModifier {}");
    let _ = c.on_hold(PressType::Down);
    assert_eq!(c.debug_string(), "AloneOrModifier { Escape: Pending }");
    let _ = c.promote_if_pending();
    assert_eq!(c.debug_string(), "AloneOrModifier { Escape: AsModifier }");
}

fn ev(key: Key, flags: ModifierFlags) -> KeyEvent {
    KeyEvent {
        key,
        press: PressType::Down,
        flags,
    }
}

#[test]
fn bare_gains_shift() {
    let got = invert_shift(&ev(Key::Num1, ModifierFlags::empty()));
    assert!(got.flags.contains(ModifierFlags::shift()));
}

#[test]
fn shift_only_drops_shift() {
    let got = invert_shift(&ev(Key::Num1, ModifierFlags::shift()));
    assert!(got.flags.is_empty());
}

#[test]
fn preserves_other_modifiers() {
    let got = invert_shift(&ev(
        Key::BackSlash,
        ModifierFlags::control() | ModifierFlags::shift(),
    ));
    assert!(got.flags.contains(ModifierFlags::control()));
    assert!(!got.flags.contains(ModifierFlags::shift()));
    let got = invert_shift(&ev(Key::BackSlash, ModifierFlags::control()));
    assert!(got.flags.contains(ModifierFlags::control()));
    assert!(got.flags.contains(ModifierFlags::shift()));
}

#[test]
fn inverting_twice_gives_the_event_back() {
    let original = ev(Key::KeyQ, ModifierFlags::alt() | ModifierFlags::command());
    let twice = invert_shift(&invert_shift(&original));
    assert!(twice == original);
}

#[test]
fn right_shift_taps_close_paren_and_holds_as_shift() {
    let mut s = AloneOrModifier::right_shift_close_paren();
    assert_eq!(s.hold(), Key::ShiftRight);
    assert!(!s.is_held());
    let _ = s.on_hold(PressType::Down);
    assert!(s.is_held());
    let tap = s.on_hold(PressType::Up);
    assert_eq!(tap.len(), 2);
    assert_eq!(tap[0].key, Key::Num0);
    assert_eq!(tap[0].flags.bits(), 8);
    let _ = s.on_hold(PressType::Down);
    let down = s.promote_if_pending();
    assert_eq!(down[0].key, Key::ShiftRight);
    assert_eq!(down[0].flags.bits(), 0);
    assert_eq!(s.stamp(ModifierFlags::command()).bits(), 10);
    let up = s.on_hold(PressType::Up);
    assert_eq!(up.len(), 1);
    assert_eq!(up[0].press, PressType::Up);
    assert!(!s.is_held());
    assert_eq!(s.stamp(ModifierFlags::command()).bits(), 2);
}

#[test]
fn a_custom_dual_role_reports_its_own_keys() {
    let mut d = AloneOrModifier::new(
        Key::Space,
        Key::Space,
        ModifierFlags::empty(),
        Key::MetaLeft,
        ModifierFlags::command(),
    );
    assert!(d.promote_if_pending().is_empty());
    let _ = d.on_hold(PressType::Down);
    let down = d.promote_if_pending();
    assert_eq!(down[0].key, Key::MetaLeft);
    assert_eq!(d.debug_string(), "AloneOrModifier { Space: AsModifier }");
}

#[test]
fn a_repeat_while_acting_as_the_modifier_keeps_the_modifier() {
    let mut c = AloneOrModifier::escape_control();
    assert!(c.on_hold(PressType::Down).is_empty());
    assert_eq!(c.promote_if_pending().len(), 1);
    assert!(c.on_hold(PressType::Down).is_empty());
    assert!(c.is_modifier());
    assert!(c.stamp(ModifierFlags::empty()).contains(ModifierFlags::control()));
    let release = c.on_hold(PressType::Up);
    assert_eq!(release.len(), 1);
    assert_eq!(release[0].key, Key::ControlLeft);
    assert_eq!(release[0].press, PressType::Up);
    assert!(!c.is_held());
}

#[test]
fn a_repeat_while_pending_still_taps_alone() {
    let mut c = AloneOrModifier::escape_control();
    assert!(c.on_hold(PressType::Down).is_empty());
    assert!(c.on_hold(PressType::Down).is_empty());
    assert!(c.is_pending());
    let out = c.on_hold(PressType::Up);
    assert_eq!(out.len(), 2);
    assert_eq!(out[0].key, Key::Escape);
}
