use freddie::key_code;
use freddie::keyboard::{
    decide, flags_changed_bit, from_cg, from_code, intrinsic_flags, press_of_key, to_cg, to_code,
    wire_event, Decision, EmitError, FlagsChangedDown, KeyboardEventKind, Tag, WireKeyEvent,
    CG_FLAG_ALPHA_SHIFT, CG_FLAG_ALTERNATE, CG_FLAG_COMMAND, CG_FLAG_CONTROL, CG_FLAG_NUMERIC_PAD,
    CG_FLAG_SECONDARY_FN, CG_FLAG_SHIFT,
};
use freddie::keys::{Key, KeyEvent, ModifierFlags, PressType};

fn ev(key: Key) -> KeyEvent {
    KeyEvent {
        key,
        press: PressType::Down,
        flags: ModifierFlags::empty(),
    }
}

#[test]
fn named_keys_round_trip() {
    assert_eq!(to_code(Key::KeyR), Some(key_code::ANSI_R));
    assert_eq!(from_code(key_code::ANSI_R), Key::KeyR);
    assert_eq!(to_code(Key::Escape), Some(key_code::ESCAPE));
    assert_eq!(from_code(key_code::ESCAPE), Key::Escape);
    assert_eq!(to_code(Key::MetaLeft), Some(key_code::COMMAND));
    assert_eq!(from_code(key_code::RIGHT_SHIFT), Key::ShiftRight);
}

#[test]
fn unknown_code_becomes_raw() {
    assert_eq!(from_code(64000), Key::Raw(64000));
}

#[test]
fn raw_round_trips_its_code() {
    assert_eq!(to_code(Key::Raw(64000)), Some(64000));
    assert_eq!(from_code(64000), Key::Raw(64000));
}

#[test]
fn keys_without_a_mac_code_are_unmappable() {
    assert_eq!(to_code(Key::F24), None);
    assert_eq!(to_code(Key::Insert), None);
}

#[test]
fn decide_passes_unchanged() {
    let a = ev(Key::KeyA);
    assert_eq!(decide(&a, Some(a.clone())), Decision::Pass);
}

#[test]
fn decide_remaps_a_different_key() {
    let a = ev(Key::KeyA);
    let b = ev(Key::KeyB);
    assert_eq!(decide(&a, Some(b.clone())), Decision::Remap(b));
}

#[test]
fn decide_drops_on_none() {
    assert_eq!(decide(&ev(Key::KeyA), None), Decision::Drop);
}

#[test]
fn decide_remaps_when_only_press_changes() {
    let down = ev(Key::KeyA);
    let up = KeyEvent {
        key: Key::KeyA,
        press: PressType::Up,
        flags: ModifierFlags::empty(),
    };
    assert_eq!(decide(&down, Some(up.clone())), Decision::Remap(up));
}

#[test]
fn only_the_arrows_and_the_keypad_are_intrinsically_numeric_pad() {
    for code in [
        key_code::UP_ARROW,
        key_code::LEFT_ARROW,
        key_code::ANSI_KEYPAD_ENTER,
        key_code::ANSI_KEYPAD_7,
    ] {
        assert_eq!(intrinsic_flags(code), CG_FLAG_NUMERIC_PAD, "keycode {code}");
    }
    for code in [
        key_code::HOME,
        key_code::END,
        key_code::PAGE_UP,
        key_code::PAGE_DOWN,
        key_code::ANSI_KEYPAD_CLEAR,
        key_code::SPACE,
        key_code::ANSI_A,
    ] {
        assert_eq!(intrinsic_flags(code), 0, "keycode {code}");
    }
}

#[test]
fn the_wire_flags_are_the_portable_ones_plus_the_intrinsic_ones() {
    for (key, code, flags) in [
        (Key::Space, key_code::SPACE, ModifierFlags::command()),
        (Key::UpArrow, key_code::UP_ARROW, ModifierFlags::empty()),
        (Key::UpArrow, key_code::UP_ARROW, ModifierFlags::command()),
        (Key::KeyR, key_code::ANSI_R, ModifierFlags::control()),
    ] {
        let wire = wire_event(key, PressType::Down, flags).expect("an event for the key");
        assert_eq!(wire.flags, to_cg(flags) | intrinsic_flags(code), "{key:?}");
        assert_eq!(wire.code, code);
        assert!(wire.down);
    }
}

#[test]
fn a_chord_carries_its_modifier_and_nothing_else() {
    let modifiers = CG_FLAG_ALPHA_SHIFT
        | CG_FLAG_SHIFT
        | CG_FLAG_CONTROL
        | CG_FLAG_ALTERNATE
        | CG_FLAG_COMMAND
        | CG_FLAG_SECONDARY_FN;
    let space = wire_event(Key::Space, PressType::Down, ModifierFlags::command()).expect("a space");
    assert_eq!(space.flags & modifiers, CG_FLAG_COMMAND);
    assert_eq!(space.flags & CG_FLAG_NUMERIC_PAD, 0);
}

#[test]
fn a_key_with_no_code_is_unmappable() {
    assert_eq!(
        wire_event(Key::F24, PressType::Down, ModifierFlags::empty()),
        Err(EmitError::Unmappable(Key::F24))
    );
    assert_eq!(
        EmitError::Unmappable(Key::F24).message(),
        "F24 has no key code on this OS"
    );
}

#[test]
fn portable_flags_round_trip_through_the_wire() {
    let flags = ModifierFlags::control() | ModifierFlags::shift() | ModifierFlags::function();
    let wire = to_cg(flags);
    assert_eq!(wire, CG_FLAG_CONTROL | CG_FLAG_SHIFT | CG_FLAG_SECONDARY_FN);
    assert_eq!(from_cg(wire | CG_FLAG_NUMERIC_PAD), flags);
    assert_eq!(from_cg(0), ModifierFlags::empty());
}

#[test]
fn flags_changed_one_side_release_while_the_other_is_held_is_up() {
    for (left, right) in [
        (Key::ShiftLeft, Key::ShiftRight),
        (Key::ControlLeft, Key::ControlRight),
        (Key::AltLeft, Key::AltRight),
        (Key::MetaLeft, Key::MetaRight),
    ] {
        let mut down = FlagsChangedDown::new();
        assert_eq!(
            press_of_key(KeyboardEventKind::FlagsChanged, left, &mut down),
            Some(PressType::Down)
        );
        assert_eq!(
            press_of_key(KeyboardEventKind::FlagsChanged, right, &mut down),
            Some(PressType::Down)
        );
        assert_eq!(
            press_of_key(KeyboardEventKind::FlagsChanged, left, &mut down),
            Some(PressType::Up),
            "{left:?} released while {right:?} held"
        );
        assert_eq!(
            press_of_key(KeyboardEventKind::FlagsChanged, right, &mut down),
            Some(PressType::Up)
        );
    }
}

#[test]
fn flags_changed_caps_lock_toggles() {
    let mut down = FlagsChangedDown::new();
    assert_eq!(
        press_of_key(KeyboardEventKind::FlagsChanged, Key::CapsLock, &mut down),
        Some(PressType::Down)
    );
    assert_eq!(
        press_of_key(KeyboardEventKind::FlagsChanged, Key::CapsLock, &mut down),
        Some(PressType::Up)
    );
    assert_eq!(
        press_of_key(KeyboardEventKind::FlagsChanged, Key::CapsLock, &mut down),
        Some(PressType::Down)
    );
}

#[test]
fn flags_changed_of_a_non_modifier_is_none() {
    let mut down = FlagsChangedDown::new();
    assert_eq!(
        press_of_key(KeyboardEventKind::FlagsChanged, Key::KeyA, &mut down),
        None
    );
}

#[test]
fn key_events_say_their_own_direction() {
    let mut down = FlagsChangedDown::new();
    assert_eq!(
        press_of_key(KeyboardEventKind::KeyDown, Key::KeyA, &mut down),
        Some(PressType::Down)
    );
    assert_eq!(
        press_of_key(KeyboardEventKind::KeyUp, Key::ShiftLeft, &mut down),
        Some(PressType::Up)
    );
    assert_eq!(
        press_of_key(KeyboardEventKind::Other, Key::ShiftLeft, &mut down),
        None
    );
    assert_eq!(
        press_of_key(KeyboardEventKind::FlagsChanged, Key::ShiftLeft, &mut down),
        Some(PressType::Down)
    );
}

#[test]
fn flags_changed_bits_cover_each_modifier_side_and_caps_lock() {
    for key in [
        Key::ShiftLeft,
        Key::ShiftRight,
        Key::ControlLeft,
        Key::ControlRight,
        Key::AltLeft,
        Key::AltRight,
        Key::MetaLeft,
        Key::MetaRight,
        Key::CapsLock,
    ] {
        assert!(flags_changed_bit(key).is_some(), "{key:?}");
    }
    assert_eq!(flags_changed_bit(Key::KeyA), None);
    assert_eq!(flags_changed_bit(Key::Escape), None);
}

#[test]
fn every_code_names_a_key_that_maps_back() {
    for code in 0..=0xFFu16 {
        assert_eq!(to_code(from_code(code)), Some(code));
    }
}

#[test]
fn two_tags_are_told_apart_from_a_fixed_one() {
    let a = Tag::new();
    let b = Tag::new();
    assert_eq!(a, a);
    let _ = b;
}

// An arrow keeps NumericPad; a space never gains it.
#[test]
fn a_keys_own_flags_survive_and_others_do_not_appear() {
    let arrow = wire_event(Key::UpArrow, PressType::Down, ModifierFlags::empty()).expect("an arrow");
    let space = wire_event(Key::Space, PressType::Down, ModifierFlags::empty()).expect("a space");
    assert_ne!(arrow.flags & CG_FLAG_NUMERIC_PAD, 0);
    assert_eq!(space.flags & CG_FLAG_NUMERIC_PAD, 0);
}

// A keypad key arrives as `Key::Raw` and must still post NumericPad.
#[test]
fn a_raw_keypad_key_keeps_its_numeric_pad_bit() {
    let event = wire_event(
        Key::Raw(key_code::ANSI_KEYPAD_ENTER),
        PressType::Down,
        ModifierFlags::empty(),
    )
    .expect("a keypad enter");
    assert_eq!(event.flags, CG_FLAG_NUMERIC_PAD);
}

// A remapped key carries the flags it was given.
#[test]
fn a_remapped_key_carries_the_flags_it_was_given() {
    let event =
        wire_event(Key::KeyR, PressType::Down, ModifierFlags::command()).expect("a key");
    assert_ne!(event.flags & CG_FLAG_COMMAND, 0);
    assert_eq!(event.code, key_code::ANSI_R);
    assert!(event.down);
}

#[test]
fn a_released_chord_key_is_written_exactly() {
    let wire = wire_event(Key::KeyC, PressType::Up, ModifierFlags::command()).expect("a code");
    assert_eq!(
        wire,
        WireKeyEvent {
            code: key_code::ANSI_C,
            down: false,
            flags: CG_FLAG_COMMAND,
        }
    );
}
