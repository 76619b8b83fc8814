//! Platform-neutral keyboard vocabulary: [`Key`], [`KeyEvent`], modifier flags, and bind triggers.

use crate::text::{append_decimal, decimal};
use crate::trigger::EventTrigger;
use vstd::prelude::*;

verus! {

/// A physical key, named by its US-ANSI position, independent of layout or OS.
#[derive(Clone, Copy, PartialEq, Eq, Structural, Hash, Debug)]
pub enum Key {
    KeyA,
    KeyB,
    KeyC,
    KeyD,
    KeyE,
    KeyF,
    KeyG,
    KeyH,
    KeyI,
    KeyJ,
    KeyK,
    KeyL,
    KeyM,
    KeyN,
    KeyO,
    KeyP,
    KeyQ,
    KeyR,
    KeyS,
    KeyT,
    KeyU,
    KeyV,
    KeyW,
    KeyX,
    KeyY,
    KeyZ,
    Num0,
    Num1,
    Num2,
    Num3,
    Num4,
    Num5,
    Num6,
    Num7,
    Num8,
    Num9,
    F1,
    F2,
    F3,
    F4,
    F5,
    F6,
    F7,
    F8,
    F9,
    F10,
    F11,
    F12,
    F13,
    F14,
    F15,
    F16,
    F17,
    F18,
    F19,
    F20,
    F21,
    F22,
    F23,
    F24,
    Escape,
    Return,
    Space,
    Tab,
    Backspace,
    Delete,
    CapsLock,
    UpArrow,
    DownArrow,
    LeftArrow,
    RightArrow,
    Home,
    End,
    PageUp,
    PageDown,
    Insert,
    ShiftLeft,
    ShiftRight,
    ControlLeft,
    ControlRight,
    AltLeft,
    AltRight,
    MetaLeft,
    MetaRight,
    Grave,
    Minus,
    Equal,
    LeftBracket,
    RightBracket,
    BackSlash,
    SemiColon,
    Quote,
    Comma,
    Dot,
    Slash,
    /// A native key code with no name. Not portable across OSes.
    Raw(u16),
}

/// Whether a key went down or came up.
#[derive(Clone, Copy, PartialEq, Eq, Structural, Hash, Debug)]
pub enum PressType {
    Down,
    Up,
}

/// A key going down or coming up, carrying its modifier flags.
///
/// The flags are authoritative: the source stamps them at creation. A passed-through key
/// carries exactly these; a sync sweep or a chord builds its own.
#[derive(Clone, PartialEq, Eq, Structural, Debug)]
pub struct KeyEvent {
    pub key: Key,
    pub press: PressType,
    pub flags: ModifierFlags,
}

/// Portable modifier bitset. Stated on the event rather than read from an OS event source,
/// which lags a modifier posted microseconds earlier.
#[derive(Clone, Copy, PartialEq, Eq, Structural, Hash, Default, Debug)]
pub struct ModifierFlags(u8);

impl View for ModifierFlags {
    type V = u8;

    closed spec fn view(&self) -> u8 {
        self.0
    }
}

impl ModifierFlags {
    /// Every bit of `flag` is set in `self`.
    pub open spec fn has(self, flag: ModifierFlags) -> bool {
        self.has_bits(flag@)
    }

    /// Every bit of `bits` is set in `self`.
    pub open spec fn has_bits(self, bits: u8) -> bool {
        self@ & bits == bits
    }

    pub fn control() -> (r: Self)
        ensures
            r@ == 1,
    {
        ModifierFlags(1)
    }

    pub fn command() -> (r: Self)
        ensures
            r@ == 2,
    {
        ModifierFlags(2)
    }

    pub fn alt() -> (r: Self)
        ensures
            r@ == 4,
    {
        ModifierFlags(4)
    }

    pub fn shift() -> (r: Self)
        ensures
            r@ == 8,
    {
        ModifierFlags(8)
    }

    /// The `fn` (Globe) modifier. Arrives only as a flag on other events, not as a key.
    pub fn function() -> (r: Self)
        ensures
            r@ == 16,
    {
        ModifierFlags(16)
    }

    /// The set with no flag in it.
    pub closed spec fn spec_empty() -> ModifierFlags {
        ModifierFlags(0)
    }

    /// A flag set is its bits: two sets with the same bits are the same set.
    pub proof fn lemma_bits_determine(a: ModifierFlags, b: ModifierFlags)
        ensures
            a@ == b@ <==> a == b,
            ModifierFlags::spec_empty()@ == 0,
    {
    }

    pub fn empty() -> (r: Self)
        ensures
            r == ModifierFlags::spec_empty(),
            r@ == 0,
    {
        ModifierFlags(0)
    }

    pub fn is_empty(self) -> (r: bool)
        ensures
            r == (self@ == 0),
    {
        self.0 == 0
    }

    pub fn bits(self) -> (r: u8)
        ensures
            r == self@,
    {
        self.0
    }

    pub fn contains(self, flag: Self) -> (r: bool)
        ensures
            r == self.has(flag),
    {
        self.0 & flag.0 == flag.0
    }

    /// Turn the bits of `flag` on or off; the other bits stay.
    pub fn set(&mut self, flag: Self, on: bool)
        ensures
            final(self)@ == (if on {
                old(self)@ | flag@
            } else {
                old(self)@ & !flag@
            }),
    {
        self.0 = if on {
            self.0 | flag.0
        } else {
            self.0 & !flag.0
        };
    }

    /// The union of two flag sets.
    pub fn union(self, other: Self) -> (r: Self)
        ensures
            r@ == self@ | other@,
    {
        ModifierFlags(self.0 | other.0)
    }

    /// Names of the set flags, in the order CONTROL, COMMAND, ALT, SHIFT, FN.
    pub open spec fn named(self) -> Seq<Seq<char>> {
        (if self.has_bits(1) { seq!["CONTROL"@] } else { seq![] })
        + (if self.has_bits(2) { seq!["COMMAND"@] } else { seq![] })
        + (if self.has_bits(4) { seq!["ALT"@] } else { seq![] })
        + (if self.has_bits(8) { seq!["SHIFT"@] } else { seq![] })
        + (if self.has_bits(16) { seq!["FN"@] } else { seq![] })
    }

    /// `ModifierFlags(COMMAND|SHIFT)`: the set named flags joined by `|`.
    pub open spec fn readable(self) -> Seq<char> {
        "ModifierFlags("@ + join_bar(self.named()) + ")"@
    }

    /// The readable form, as [`ModifierFlags::readable`] states it.
    pub fn debug_string(self) -> (r: String)
        ensures
            r@ == self.readable(),
    {
        let mut out = String::from_str("ModifierFlags(");
        let mut any = false;
        let names = Ghost(Seq::<Seq<char>>::empty());
        let names = append_named(&mut out, &mut any, names, self.contains(ModifierFlags::control()), "CONTROL");
        let names = append_named(&mut out, &mut any, names, self.contains(ModifierFlags::command()), "COMMAND");
        let names = append_named(&mut out, &mut any, names, self.contains(ModifierFlags::alt()), "ALT");
        let names = append_named(&mut out, &mut any, names, self.contains(ModifierFlags::shift()), "SHIFT");
        let names = append_named(&mut out, &mut any, names, self.contains(ModifierFlags::function()), "FN");
        out.append(")");
        proof {
            assert(names@ =~= self.named());
        }
        out
    }
}

/// Names joined by `|`.
pub open spec fn join_bar(names: Seq<Seq<char>>) -> Seq<char>
    decreases names.len(),
{
    if names.len() == 0 {
        seq![]
    } else if names.len() == 1 {
        names[0]
    } else {
        join_bar(names.drop_last()) + "|"@ + names.last()
    }
}

fn append_named(
    out: &mut String,
    any: &mut bool,
    names: Ghost<Seq<Seq<char>>>,
    present: bool,
    name: &str,
) -> (after: Ghost<Seq<Seq<char>>>)
    requires
        *old(any) == (names@.len() > 0),
        old(out)@ == "ModifierFlags("@ + join_bar(names@),
    ensures
        after@ == (if present { names@.push(name@) } else { names@ }),
        *final(any) == (after@.len() > 0),
        final(out)@ == "ModifierFlags("@ + join_bar(after@),
{
    if present {
        if *any {
            out.append("|");
        }
        out.append(name);
        *any = true;
        proof {
            let pushed = names@.push(name@);
            assert(pushed.drop_last() =~= names@);
            if names@.len() > 0 {
                assert(out@ =~= "ModifierFlags("@ + join_bar(names@) + "|"@ + name@);
            } else {
                assert(out@ =~= "ModifierFlags("@ + name@);
            }
        }
        Ghost(names@.push(name@))
    } else {
        names
    }
}

impl std::ops::BitOr for ModifierFlags {
    type Output = Self;

    fn bitor(self, other: Self) -> (r: Self)
        ensures
            r@ == self@ | other@,
    {
        ModifierFlags(self.0 | other.0)
    }
}

impl vstd::std_specs::ops::BitOrSpecImpl for ModifierFlags {
    open spec fn obeys_bitor_spec() -> bool {
        true
    }

    open spec fn bitor_req(self, rhs: ModifierFlags) -> bool {
        true
    }

    closed spec fn bitor_spec(self, rhs: ModifierFlags) -> ModifierFlags {
        ModifierFlags(self.0 | rhs.0)
    }
}

impl PressType {
    pub open spec fn readable(self) -> Seq<char> {
        match self {
            PressType::Down => "Down"@,
            PressType::Up => "Up"@,
        }
    }

    pub fn debug_str(self) -> (r: &'static str)
        ensures
            r@ == self.readable(),
    {
        match self {
            PressType::Down => "Down",
            PressType::Up => "Up",
        }
    }
}

impl KeyEvent {
    /// `KeyEvent { key: KeyJ, press: Down }`, with `flags` only when some modifier is set.
    pub open spec fn readable(self) -> Seq<char> {
        "KeyEvent { key: "@ + self.key.readable() + ", press: "@ + self.press.readable()
            + (if self.flags@ == 0 { seq![] } else { ", flags: "@ + self.flags.readable() })
            + " }"@
    }

    pub fn debug_string(&self) -> (r: String)
        ensures
            r@ == self.readable(),
    {
        let mut out = String::from_str("KeyEvent { key: ");
        out.append(&self.key.debug_string());
        out.append(", press: ");
        out.append(self.press.debug_str());
        if !self.flags.is_empty() {
            out.append(", flags: ");
            out.append(&self.flags.debug_string());
        }
        out.append(" }");
        proof {
            assert(out@ =~= self.readable());
        }
        out
    }
}

impl EventTrigger for Key {
    type Event = KeyEvent;

    open spec fn matching(&self, event: &KeyEvent) -> bool {
        *self == event.key
    }

    fn is_matching(&self, event: &KeyEvent) -> (r: bool) {
        *self == event.key
    }
}

impl Key {
    /// The variant's name; `Raw(code)` for a raw code.
    pub open spec fn readable(self) -> Seq<char> {
        match self {
            Key::KeyA => "KeyA"@,
            Key::KeyB => "KeyB"@,
            Key::KeyC => "KeyC"@,
            Key::KeyD => "KeyD"@,
            Key::KeyE => "KeyE"@,
            Key::KeyF => "KeyF"@,
            Key::KeyG => "KeyG"@,
            Key::KeyH => "KeyH"@,
            Key::KeyI => "KeyI"@,
            Key::KeyJ => "KeyJ"@,
            Key::KeyK => "KeyK"@,
            Key::KeyL => "KeyL"@,
            Key::KeyM => "KeyM"@,
            Key::KeyN => "KeyN"@,
            Key::KeyO => "KeyO"@,
            Key::KeyP => "KeyP"@,
            Key::KeyQ => "KeyQ"@,
            Key::KeyR => "KeyR"@,
            Key::KeyS => "KeyS"@,
            Key::KeyT => "KeyT"@,
            Key::KeyU => "KeyU"@,
            Key::KeyV => "KeyV"@,
            Key::KeyW => "KeyW"@,
            Key::KeyX => "KeyX"@,
            Key::KeyY => "KeyY"@,
            Key::KeyZ => "KeyZ"@,
            Key::Num0 => "Num0"@,
            Key::Num1 => "Num1"@,
            Key::Num2 => "Num2"@,
            Key::Num3 => "Num3"@,
            Key::Num4 => "Num4"@,
            Key::Num5 => "Num5"@,
            Key::Num6 => "Num6"@,
            Key::Num7 => "Num7"@,
            Key::Num8 => "Num8"@,
            Key::Num9 => "Num9"@,
            Key::F1 => "F1"@,
            Key::F2 => "F2"@,
            Key::F3 => "F3"@,
            Key::F4 => "F4"@,
            Key::F5 => "F5"@,
            Key::F6 => "F6"@,
            Key::F7 => "F7"@,
            Key::F8 => "F8"@,
            Key::F9 => "F9"@,
            Key::F10 => "F10"@,
            Key::F11 => "F11"@,
            Key::F12 => "F12"@,
            Key::F13 => "F13"@,
            Key::F14 => "F14"@,
            Key::F15 => "F15"@,
            Key::F16 => "F16"@,
            Key::F17 => "F17"@,
            Key::F18 => "F18"@,
            Key::F19 => "F19"@,
            Key::F20 => "F20"@,
            Key::F21 => "F21"@,
            Key::F22 => "F22"@,
            Key::F23 => "F23"@,
            Key::F24 => "F24"@,
            Key::Escape => "Escape"@,
            Key::Return => "Return"@,
            Key::Space => "Space"@,
            Key::Tab => "Tab"@,
            Key::Backspace => "Backspace"@,
            Key::Delete => "Delete"@,
            Key::CapsLock => "CapsLock"@,
            Key::UpArrow => "UpArrow"@,
            Key::DownArrow => "DownArrow"@,
            Key::LeftArrow => "LeftArrow"@,
            Key::RightArrow => "RightArrow"@,
            Key::Home => "Home"@,
            Key::End => "End"@,
            Key::PageUp => "PageUp"@,
            Key::PageDown => "PageDown"@,
            Key::Insert => "Insert"@,
            Key::ShiftLeft => "ShiftLeft"@,
            Key::ShiftRight => "ShiftRight"@,
            Key::ControlLeft => "ControlLeft"@,
            Key::ControlRight => "ControlRight"@,
            Key::AltLeft => "AltLeft"@,
            Key::AltRight => "AltRight"@,
            Key::MetaLeft => "MetaLeft"@,
            Key::MetaRight => "MetaRight"@,
            Key::Grave => "Grave"@,
            Key::Minus => "Minus"@,
            Key::Equal => "Equal"@,
            Key::LeftBracket => "LeftBracket"@,
            Key::RightBracket => "RightBracket"@,
            Key::BackSlash => "BackSlash"@,
            Key::SemiColon => "SemiColon"@,
            Key::Quote => "Quote"@,
            Key::Comma => "Comma"@,
            Key::Dot => "Dot"@,
            Key::Slash => "Slash"@,
            Key::Raw(code) => "Raw("@ + decimal(code as nat) + ")"@,
        }
    }

    fn name_str(self) -> (r: &'static str)
        requires
            !(self is Raw),
        ensures
            r@ == self.readable(),
    {
        match self {
            Key::KeyA => "KeyA",
            Key::KeyB => "KeyB",
            Key::KeyC => "KeyC",
            Key::KeyD => "KeyD",
            Key::KeyE => "KeyE",
            Key::KeyF => "KeyF",
            Key::KeyG => "KeyG",
            Key::KeyH => "KeyH",
            Key::KeyI => "KeyI",
            Key::KeyJ => "KeyJ",
            Key::KeyK => "KeyK",
            Key::KeyL => "KeyL",
            Key::KeyM => "KeyM",
            Key::KeyN => "KeyN",
            Key::KeyO => "KeyO",
            Key::KeyP => "KeyP",
            Key::KeyQ => "KeyQ",
            Key::KeyR => "KeyR",
            Key::KeyS => "KeyS",
            Key::KeyT => "KeyT",
            Key::KeyU => "KeyU",
            Key::KeyV => "KeyV",
            Key::KeyW => "KeyW",
            Key::KeyX => "KeyX",
            Key::KeyY => "KeyY",
            Key::KeyZ => "KeyZ",
            Key::Num0 => "Num0",
            Key::Num1 => "Num1",
            Key::Num2 => "Num2",
            Key::Num3 => "Num3",
            Key::Num4 => "Num4",
            Key::Num5 => "Num5",
            Key::Num6 => "Num6",
            Key::Num7 => "Num7",
            Key::Num8 => "Num8",
            Key::Num9 => "Num9",
            Key::F1 => "F1",
            Key::F2 => "F2",
            Key::F3 => "F3",
            Key::F4 => "F4",
            Key::F5 => "F5",
            Key::F6 => "F6",
            Key::F7 => "F7",
            Key::F8 => "F8",
            Key::F9 => "F9",
            Key::F10 => "F10",
            Key::F11 => "F11",
            Key::F12 => "F12",
            Key::F13 => "F13",
            Key::F14 => "F14",
            Key::F15 => "F15",
            Key::F16 => "F16",
            Key::F17 => "F17",
            Key::F18 => "F18",
            Key::F19 => "F19",
            Key::F20 => "F20",
            Key::F21 => "F21",
            Key::F22 => "F22",
            Key::F23 => "F23",
            Key::F24 => "F24",
            Key::Escape => "Escape",
            Key::Return => "Return",
            Key::Space => "Space",
            Key::Tab => "Tab",
            Key::Backspace => "Backspace",
            Key::Delete => "Delete",
            Key::CapsLock => "CapsLock",
            Key::UpArrow => "UpArrow",
            Key::DownArrow => "DownArrow",
            Key::LeftArrow => "LeftArrow",
            Key::RightArrow => "RightArrow",
            Key::Home => "Home",
            Key::End => "End",
            Key::PageUp => "PageUp",
            Key::PageDown => "PageDown",
            Key::Insert => "Insert",
            Key::ShiftLeft => "ShiftLeft",
            Key::ShiftRight => "ShiftRight",
            Key::ControlLeft => "ControlLeft",
            Key::ControlRight => "ControlRight",
            Key::AltLeft => "AltLeft",
            Key::AltRight => "AltRight",
            Key::MetaLeft => "MetaLeft",
            Key::MetaRight => "MetaRight",
            Key::Grave => "Grave",
            Key::Minus => "Minus",
            Key::Equal => "Equal",
            Key::LeftBracket => "LeftBracket",
            Key::RightBracket => "RightBracket",
            Key::BackSlash => "BackSlash",
            Key::SemiColon => "SemiColon",
            Key::Quote => "Quote",
            Key::Comma => "Comma",
            Key::Dot => "Dot",
            Key::Slash => "Slash",
            Key::Raw(_) => "Raw",
        }
    }

    pub fn debug_string(self) -> (r: String)
        ensures
            r@ == self.readable(),
    {
        match self {
            Key::Raw(code) => {
                let mut out = String::from_str("Raw(");
                append_decimal(&mut out, code as u64);
                out.append(")");
                out
            },
            _ => String::from_str(self.name_str()),
        }
    }

    pub fn down(self) -> (r: KeyPress)
        ensures
            r == (KeyPress { key: self, press: PressType::Down }),
    {
        KeyPress { key: self, press: PressType::Down }
    }

    pub fn up(self) -> (r: KeyPress)
        ensures
            r == (KeyPress { key: self, press: PressType::Up }),
    {
        KeyPress { key: self, press: PressType::Up }
    }

    /// Trigger matching this key going either direction.
    pub fn press(self) -> (r: KeyEitherPress)
        ensures
            r == (KeyEitherPress { key: self }),
    {
        KeyEitherPress { key: self }
    }

    pub open spec fn spec_is_modifier(self) -> bool {
        match self {
            Key::ShiftLeft
            | Key::ShiftRight
            | Key::ControlLeft
            | Key::ControlRight
            | Key::AltLeft
            | Key::AltRight
            | Key::MetaLeft
            | Key::MetaRight => true,
            _ => false,
        }
    }

    pub open spec fn spec_is_letter(self) -> bool {
        match self {
            Key::KeyA
            | Key::KeyB
            | Key::KeyC
            | Key::KeyD
            | Key::KeyE
            | Key::KeyF
            | Key::KeyG
            | Key::KeyH
            | Key::KeyI
            | Key::KeyJ
            | Key::KeyK
            | Key::KeyL
            | Key::KeyM
            | Key::KeyN
            | Key::KeyO
            | Key::KeyP
            | Key::KeyQ
            | Key::KeyR
            | Key::KeyS
            | Key::KeyT
            | Key::KeyU
            | Key::KeyV
            | Key::KeyW
            | Key::KeyX
            | Key::KeyY
            | Key::KeyZ => true,
            _ => false,
        }
    }

    pub open spec fn spec_is_number_row(self) -> bool {
        match self {
            Key::Num0
            | Key::Num1
            | Key::Num2
            | Key::Num3
            | Key::Num4
            | Key::Num5
            | Key::Num6
            | Key::Num7
            | Key::Num8
            | Key::Num9 => true,
            _ => false,
        }
    }

    pub open spec fn spec_is_function(self) -> bool {
        match self {
            Key::F1
            | Key::F2
            | Key::F3
            | Key::F4
            | Key::F5
            | Key::F6
            | Key::F7
            | Key::F8
            | Key::F9
            | Key::F10
            | Key::F11
            | Key::F12
            | Key::F13
            | Key::F14
            | Key::F15
            | Key::F16
            | Key::F17
            | Key::F18
            | Key::F19
            | Key::F20
            | Key::F21
            | Key::F22
            | Key::F23
            | Key::F24 => true,
            _ => false,
        }
    }

    pub open spec fn spec_is_arrow(self) -> bool {
        match self {
            Key::UpArrow | Key::DownArrow | Key::LeftArrow | Key::RightArrow => true,
            _ => false,
        }
    }

    pub open spec fn spec_is_navigation(self) -> bool {
        match self {
            Key::Home | Key::End | Key::PageUp | Key::PageDown => true,
            _ => false,
        }
    }

    /// Control, command, alt, or shift, left or right. Caps lock and fn are not.
    pub fn is_modifier(self) -> (r: bool)
        ensures
            r == self.spec_is_modifier(),
    {
        match self {
            Key::ShiftLeft
            | Key::ShiftRight
            | Key::ControlLeft
            | Key::ControlRight
            | Key::AltLeft
            | Key::AltRight
            | Key::MetaLeft
            | Key::MetaRight => true,
            _ => false,
        }
    }

    pub fn is_letter(self) -> (r: bool)
        ensures
            r == self.spec_is_letter(),
    {
        match self {
            Key::KeyA
            | Key::KeyB
            | Key::KeyC
            | Key::KeyD
            | Key::KeyE
            | Key::KeyF
            | Key::KeyG
            | Key::KeyH
            | Key::KeyI
            | Key::KeyJ
            | Key::KeyK
            | Key::KeyL
            | Key::KeyM
            | Key::KeyN
            | Key::KeyO
            | Key::KeyP
            | Key::KeyQ
            | Key::KeyR
            | Key::KeyS
            | Key::KeyT
            | Key::KeyU
            | Key::KeyV
            | Key::KeyW
            | Key::KeyX
            | Key::KeyY
            | Key::KeyZ => true,
            _ => false,
        }
    }

    pub fn is_number_row(self) -> (r: bool)
        ensures
            r == self.spec_is_number_row(),
    {
        match self {
            Key::Num0
            | Key::Num1
            | Key::Num2
            | Key::Num3
            | Key::Num4
            | Key::Num5
            | Key::Num6
            | Key::Num7
            | Key::Num8
            | Key::Num9 => true,
            _ => false,
        }
    }

    pub fn is_function(self) -> (r: bool)
        ensures
            r == self.spec_is_function(),
    {
        match self {
            Key::F1
            | Key::F2
            | Key::F3
            | Key::F4
            | Key::F5
            | Key::F6
            | Key::F7
            | Key::F8
            | Key::F9
            | Key::F10
            | Key::F11
            | Key::F12
            | Key::F13
            | Key::F14
            | Key::F15
            | Key::F16
            | Key::F17
            | Key::F18
            | Key::F19
            | Key::F20
            | Key::F21
            | Key::F22
            | Key::F23
            | Key::F24 => true,
            _ => false,
        }
    }

    pub fn is_arrow(self) -> (r: bool)
        ensures
            r == self.spec_is_arrow(),
    {
        match self {
            Key::UpArrow | Key::DownArrow | Key::LeftArrow | Key::RightArrow => true,
            _ => false,
        }
    }

    pub fn is_navigation(self) -> (r: bool)
        ensures
            r == self.spec_is_navigation(),
    {
        match self {
            Key::Home | Key::End | Key::PageUp | Key::PageDown => true,
            _ => false,
        }
    }
}

/// A set of physical keys treated as one bind target.
#[derive(Clone, Copy, PartialEq, Eq, Structural, Hash, Debug)]
pub enum KeyGroup {
    Any,
    Letter,
    Number,
    Function,
    Modifier,
    Arrow,
    Navigation,
}

impl KeyGroup {
    /// Whether `key` belongs to this group.
    pub open spec fn has_key(self, key: Key) -> bool {
        match self {
            KeyGroup::Any => true,
            KeyGroup::Letter => key.spec_is_letter(),
            KeyGroup::Number => key.spec_is_number_row(),
            KeyGroup::Function => key.spec_is_function(),
            KeyGroup::Modifier => key.spec_is_modifier(),
            KeyGroup::Arrow => key.spec_is_arrow(),
            KeyGroup::Navigation => key.spec_is_navigation(),
        }
    }

    pub fn contains(self, key: Key) -> (r: bool)
        ensures
            r == self.has_key(key),
    {
        match self {
            KeyGroup::Any => true,
            KeyGroup::Letter => key.is_letter(),
            KeyGroup::Number => key.is_number_row(),
            KeyGroup::Function => key.is_function(),
            KeyGroup::Modifier => key.is_modifier(),
            KeyGroup::Arrow => key.is_arrow(),
            KeyGroup::Navigation => key.is_navigation(),
        }
    }

    pub fn down(self) -> (r: KeyGroupPress)
        ensures
            r == (KeyGroupPress { group: self, press: PressType::Down }),
    {
        KeyGroupPress { group: self, press: PressType::Down }
    }

    pub fn up(self) -> (r: KeyGroupPress)
        ensures
            r == (KeyGroupPress { group: self, press: PressType::Up }),
    {
        KeyGroupPress { group: self, press: PressType::Up }
    }

    pub fn press(self) -> (r: KeyGroupEitherPress)
        ensures
            r == (KeyGroupEitherPress { group: self }),
    {
        KeyGroupEitherPress { group: self }
    }
}

impl EventTrigger for KeyGroup {
    type Event = KeyEvent;

    open spec fn matching(&self, event: &KeyEvent) -> bool {
        self.has_key(event.key)
    }

    fn is_matching(&self, event: &KeyEvent) -> (r: bool) {
        self.contains(event.key)
    }
}

/// A key from a [`KeyGroup`] going one direction.
#[derive(Clone, Copy, PartialEq, Eq, Structural, Hash, Debug)]
pub struct KeyGroupPress {
    pub group: KeyGroup,
    pub press: PressType,
}

impl EventTrigger for KeyGroupPress {
    type Event = KeyEvent;

    open spec fn matching(&self, event: &KeyEvent) -> bool {
        self.group.has_key(event.key) && event.press == self.press
    }

    fn is_matching(&self, event: &KeyEvent) -> (r: bool) {
        self.group.contains(event.key) && event.press == self.press
    }
}

impl KeyGroupPress {
    pub fn with(self, flags: ModifierFlags) -> (r: KeyGroupChord)
        ensures
            r == (KeyGroupChord { group: self.group, press: self.press, flags }),
    {
        KeyGroupChord { group: self.group, press: self.press, flags }
    }

    pub fn bare(self) -> (r: KeyGroupChord)
        ensures
            r == (KeyGroupChord { group: self.group, press: self.press, flags: r.flags }),
            r.flags@ == 0,
    {
        self.with(ModifierFlags::empty())
    }
}

/// A key from a [`KeyGroup`] going one direction with exactly these modifiers held.
#[derive(Clone, Copy, PartialEq, Eq, Structural, Hash, Debug)]
pub struct KeyGroupChord {
    pub group: KeyGroup,
    pub press: PressType,
    pub flags: ModifierFlags,
}

impl EventTrigger for KeyGroupChord {
    type Event = KeyEvent;

    open spec fn matching(&self, event: &KeyEvent) -> bool {
        self.group.has_key(event.key) && event.press == self.press && event.flags == self.flags
    }

    fn is_matching(&self, event: &KeyEvent) -> (r: bool) {
        self.group.contains(event.key) && event.press == self.press && event.flags == self.flags
    }
}

/// A key going one direction.
#[derive(Clone, Copy, PartialEq, Eq, Structural, Hash, Debug)]
pub struct KeyPress {
    pub key: Key,
    pub press: PressType,
}

impl EventTrigger for KeyPress {
    type Event = KeyEvent;

    open spec fn matching(&self, event: &KeyEvent) -> bool {
        self.key == event.key && self.press == event.press
    }

    fn is_matching(&self, event: &KeyEvent) -> (r: bool) {
        self.key == event.key && self.press == event.press
    }
}

impl KeyPress {
    pub fn with(self, flags: ModifierFlags) -> (r: KeyChord)
        ensures
            r == (KeyChord { key: self.key, press: self.press, flags }),
    {
        KeyChord { key: self.key, press: self.press, flags }
    }

    /// Match only when no modifier is held.
    pub fn bare(self) -> (r: KeyChord)
        ensures
            r == (KeyChord { key: self.key, press: self.press, flags: r.flags }),
            r.flags@ == 0,
    {
        self.with(ModifierFlags::empty())
    }
}

/// A key going one direction with exactly these modifiers held.
/// Caps lock is not a [`ModifierFlags`] bit, so a chord matches with caps lock on or off.
#[derive(Clone, Copy, PartialEq, Eq, Structural, Hash, Debug)]
pub struct KeyChord {
    pub key: Key,
    pub press: PressType,
    pub flags: ModifierFlags,
}

impl EventTrigger for KeyChord {
    type Event = KeyEvent;

    open spec fn matching(&self, event: &KeyEvent) -> bool {
        self.key == event.key && self.press == event.press && self.flags == event.flags
    }

    fn is_matching(&self, event: &KeyEvent) -> (r: bool) {
        self.key == event.key && self.press == event.press && self.flags == event.flags
    }
}

/// A key going either direction.
#[derive(Clone, Copy, PartialEq, Eq, Structural, Hash, Debug)]
pub struct KeyEitherPress {
    pub key: Key,
}

impl EventTrigger for KeyEitherPress {
    type Event = KeyEvent;

    open spec fn matching(&self, event: &KeyEvent) -> bool {
        self.key == event.key
    }

    fn is_matching(&self, event: &KeyEvent) -> (r: bool) {
        self.key == event.key
    }
}

impl KeyEitherPress {
    pub fn with(self, flags: ModifierFlags) -> (r: KeyEitherChord)
        ensures
            r == (KeyEitherChord { key: self.key, flags }),
    {
        KeyEitherChord { key: self.key, flags }
    }

    pub fn bare(self) -> (r: KeyEitherChord)
        ensures
            r == (KeyEitherChord { key: self.key, flags: r.flags }),
            r.flags@ == 0,
    {
        self.with(ModifierFlags::empty())
    }
}

/// A key going either direction with exactly these modifiers held.
#[derive(Clone, Copy, PartialEq, Eq, Structural, Hash, Debug)]
pub struct KeyEitherChord {
    pub key: Key,
    pub flags: ModifierFlags,
}

impl EventTrigger for KeyEitherChord {
    type Event = KeyEvent;

    open spec fn matching(&self, event: &KeyEvent) -> bool {
        self.key == event.key && event.flags == self.flags
    }

    fn is_matching(&self, event: &KeyEvent) -> (r: bool) {
        self.key == event.key && event.flags == self.flags
    }
}

/// A group's keys going either direction.
#[derive(Clone, Copy, PartialEq, Eq, Structural, Hash, Debug)]
pub struct KeyGroupEitherPress {
    pub group: KeyGroup,
}

impl EventTrigger for KeyGroupEitherPress {
    type Event = KeyEvent;

    open spec fn matching(&self, event: &KeyEvent) -> bool {
        self.group.has_key(event.key)
    }

    fn is_matching(&self, event: &KeyEvent) -> (r: bool) {
        self.group.contains(event.key)
    }
}

impl KeyGroupEitherPress {
    pub fn with(self, flags: ModifierFlags) -> (r: KeyGroupEitherChord)
        ensures
            r == (KeyGroupEitherChord { group: self.group, flags }),
    {
        KeyGroupEitherChord { group: self.group, flags }
    }

    pub fn bare(self) -> (r: KeyGroupEitherChord)
        ensures
            r == (KeyGroupEitherChord { group: self.group, flags: r.flags }),
            r.flags@ == 0,
    {
        self.with(ModifierFlags::empty())
    }
}

/// A group's keys going either direction with exactly these modifiers held.
#[derive(Clone, Copy, PartialEq, Eq, Structural, Hash, Debug)]
pub struct KeyGroupEitherChord {
    pub group: KeyGroup,
    pub flags: ModifierFlags,
}

impl EventTrigger for KeyGroupEitherChord {
    type Event = KeyEvent;

    open spec fn matching(&self, event: &KeyEvent) -> bool {
        self.group.has_key(event.key) && event.flags == self.flags
    }

    fn is_matching(&self, event: &KeyEvent) -> (r: bool) {
        self.group.contains(event.key) && event.flags == self.flags
    }
}

/// A key event tagged with the consumer's device identity `D`.
#[derive(Clone, PartialEq, Eq, Debug)]
pub struct DeviceKeyed<E, D> {
    pub key: E,
    pub device: D,
}

/// Restricts an inner key trigger to devices the filter `D` matches.
#[derive(Clone, Copy, PartialEq, Eq, Hash, Debug)]
pub struct OnDevice<T, D> {
    pub device: D,
    pub inner: T,
}

impl<T: EventTrigger, D: EventTrigger> EventTrigger for OnDevice<T, D> {
    type Event = DeviceKeyed<T::Event, D::Event>;

    open spec fn matching(&self, event: &Self::Event) -> bool {
        self.device.matching(&event.device) && self.inner.matching(&event.key)
    }

    fn is_matching(&self, event: &Self::Event) -> (r: bool) {
        self.device.is_matching(&event.device) && self.inner.is_matching(&event.key)
    }
}

impl<T, D> OnDevice<T, D> {
    pub fn new(device: D, inner: T) -> (r: Self)
        ensures
            r == (OnDevice { device, inner }),
    {
        OnDevice { device, inner }
    }
}

/// Restrict a trigger to one device filter.
pub trait WithDevice: Sized {
    fn on_device<D: EventTrigger>(self, device: D) -> (r: OnDevice<Self, D>)
        ensures
            r == (OnDevice { device, inner: self }),
    {
        OnDevice { device, inner: self }
    }
}

impl<T: EventTrigger> WithDevice for T {}


/// Each key group is exactly its named keys: the letters A to Z, the number row 0 to 9, F1 to
/// F24, the eight left and right modifiers (not caps lock), the four arrows, and Home, End,
/// Page Up and Page Down. `Any` holds every key.
pub proof fn law_key_groups_are_their_keys(key: Key)
    ensures
        KeyGroup::Any.has_key(key),
        KeyGroup::Letter.has_key(key) <==> set![
            Key::KeyA, Key::KeyB, Key::KeyC, Key::KeyD, Key::KeyE, Key::KeyF, Key::KeyG, Key::KeyH,
            Key::KeyI, Key::KeyJ, Key::KeyK, Key::KeyL, Key::KeyM, Key::KeyN, Key::KeyO, Key::KeyP,
            Key::KeyQ, Key::KeyR, Key::KeyS, Key::KeyT, Key::KeyU, Key::KeyV, Key::KeyW, Key::KeyX,
            Key::KeyY, Key::KeyZ,
        ].contains(key),
        KeyGroup::Number.has_key(key) <==> set![
            Key::Num0, Key::Num1, Key::Num2, Key::Num3, Key::Num4, Key::Num5, Key::Num6, Key::Num7,
            Key::Num8, Key::Num9,
        ].contains(key),
        KeyGroup::Function.has_key(key) <==> set![
            Key::F1, Key::F2, Key::F3, Key::F4, Key::F5, Key::F6, Key::F7, Key::F8, Key::F9, Key::F10,
            Key::F11, Key::F12, Key::F13, Key::F14, Key::F15, Key::F16, Key::F17, Key::F18, Key::F19,
            Key::F20, Key::F21, Key::F22, Key::F23, Key::F24,
        ].contains(key),
        KeyGroup::Modifier.has_key(key) <==> set![
            Key::ShiftLeft, Key::ShiftRight, Key::ControlLeft, Key::ControlRight, Key::AltLeft,
            Key::AltRight, Key::MetaLeft, Key::MetaRight,
        ].contains(key),
        KeyGroup::Arrow.has_key(key) <==> set![Key::UpArrow, Key::DownArrow, Key::LeftArrow, Key::RightArrow].contains(
            key,
        ),
        KeyGroup::Navigation.has_key(key) <==> set![Key::Home, Key::End, Key::PageUp, Key::PageDown].contains(key),
{
}

/// A chord is its press with exactly its flags: it matches an event iff the same trigger
/// without flags matches it and the event carries exactly the chord's flags, so a chord never
/// fires on an event with other modifiers, or with none when it names some.
pub proof fn law_chords_match_exactly_their_flags(
    key: Key,
    group: KeyGroup,
    press: PressType,
    flags: ModifierFlags,
    event: KeyEvent,
)
    ensures
        (KeyChord { key, press, flags }).matching(&event) <==> (KeyPress { key, press }).matching(&event)
            && event.flags == flags,
        (KeyEitherChord { key, flags }).matching(&event) <==> (KeyEitherPress { key }).matching(&event)
            && event.flags == flags,
        (KeyGroupChord { group, press, flags }).matching(&event) <==> (KeyGroupPress { group, press }).matching(
            &event,
        ) && event.flags == flags,
        (KeyGroupEitherChord { group, flags }).matching(&event) <==> (KeyGroupEitherPress { group }).matching(
            &event,
        ) && event.flags == flags,
        (KeyPress { key, press }).matching(&event) <==> event.key == key && event.press == press,
        (KeyEitherPress { key }).matching(&event) <==> event.key == key,
        (KeyGroupPress { group, press }).matching(&event) <==> group.has_key(event.key) && event.press == press,
        (KeyGroupEitherPress { group }).matching(&event) <==> group.has_key(event.key),
{
}

} // verus!
