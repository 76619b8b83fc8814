//! The pure half of keyboard interception and emission: key codes, what an interceptor's answer
//! means, which way a modifier went, and the flags a posted event carries.

use crate::key_code;
use crate::keys::{Key, KeyEvent, ModifierFlags, PressType};
use std::collections::hash_map::{DefaultHasher, RandomState};
use std::hash::{BuildHasher, Hasher};
use vstd::prelude::*;

verus! {

/// The keyboard could not be intercepted. Usually Accessibility is not granted.
#[derive(Debug)]
pub struct CaptureError;

impl CaptureError {
    pub fn message(&self) -> (r: &'static str)
        ensures
            r@ == "could not intercept the keyboard (is Accessibility granted?)"@,
    {
        "could not intercept the keyboard (is Accessibility granted?)"
    }
}

/// A key could not be emitted.
#[derive(Debug, PartialEq, Eq, Structural)]
pub enum EmitError {
    /// The key has no code on this OS, so it cannot be emitted.
    Unmappable(Key),
    /// The OS refused to build or post the event.
    Post,
}

impl EmitError {
    pub open spec fn readable(self) -> Seq<char> {
        match self {
            EmitError::Unmappable(key) => key.readable() + " has no key code on this OS"@,
            EmitError::Post => "could not build or post the key event"@,
        }
    }

    pub fn message(&self) -> (r: String)
        ensures
            r@ == self.readable(),
    {
        match self {
            EmitError::Unmappable(key) => {
                let mut out = key.debug_string();
                out.append(" has no key code on this OS");
                out
            },
            EmitError::Post => String::from_str("could not build or post the key event"),
        }
    }
}

/// The macOS code of `key`. Keys with no macOS code (F21-F24, Insert) have none.
pub open spec fn mac_code(key: Key) -> Option<u16> {
    match key {
            Key::KeyA => Some(key_code::ANSI_A),
            Key::KeyS => Some(key_code::ANSI_S),
            Key::KeyD => Some(key_code::ANSI_D),
            Key::KeyF => Some(key_code::ANSI_F),
            Key::KeyH => Some(key_code::ANSI_H),
            Key::KeyG => Some(key_code::ANSI_G),
            Key::KeyZ => Some(key_code::ANSI_Z),
            Key::KeyX => Some(key_code::ANSI_X),
            Key::KeyC => Some(key_code::ANSI_C),
            Key::KeyV => Some(key_code::ANSI_V),
            Key::KeyB => Some(key_code::ANSI_B),
            Key::KeyQ => Some(key_code::ANSI_Q),
            Key::KeyW => Some(key_code::ANSI_W),
            Key::KeyE => Some(key_code::ANSI_E),
            Key::KeyR => Some(key_code::ANSI_R),
            Key::KeyY => Some(key_code::ANSI_Y),
            Key::KeyT => Some(key_code::ANSI_T),
            Key::Num1 => Some(key_code::ANSI_1),
            Key::Num2 => Some(key_code::ANSI_2),
            Key::Num3 => Some(key_code::ANSI_3),
            Key::Num4 => Some(key_code::ANSI_4),
            Key::Num6 => Some(key_code::ANSI_6),
            Key::Num5 => Some(key_code::ANSI_5),
            Key::Equal => Some(key_code::ANSI_EQUAL),
            Key::Num9 => Some(key_code::ANSI_9),
            Key::Num7 => Some(key_code::ANSI_7),
            Key::Minus => Some(key_code::ANSI_MINUS),
            Key::Num8 => Some(key_code::ANSI_8),
            Key::Num0 => Some(key_code::ANSI_0),
            Key::RightBracket => Some(key_code::ANSI_RIGHT_BRACKET),
            Key::KeyO => Some(key_code::ANSI_O),
            Key::KeyU => Some(key_code::ANSI_U),
            Key::LeftBracket => Some(key_code::ANSI_LEFT_BRACKET),
            Key::KeyI => Some(key_code::ANSI_I),
            Key::KeyP => Some(key_code::ANSI_P),
            Key::KeyL => Some(key_code::ANSI_L),
            Key::KeyJ => Some(key_code::ANSI_J),
            Key::Quote => Some(key_code::ANSI_QUOTE),
            Key::KeyK => Some(key_code::ANSI_K),
            Key::SemiColon => Some(key_code::ANSI_SEMICOLON),
            Key::BackSlash => Some(key_code::ANSI_BACKSLASH),
            Key::Comma => Some(key_code::ANSI_COMMA),
            Key::Slash => Some(key_code::ANSI_SLASH),
            Key::KeyN => Some(key_code::ANSI_N),
            Key::KeyM => Some(key_code::ANSI_M),
            Key::Dot => Some(key_code::ANSI_PERIOD),
            Key::Grave => Some(key_code::ANSI_GRAVE),
            Key::Return => Some(key_code::RETURN),
            Key::Tab => Some(key_code::TAB),
            Key::Space => Some(key_code::SPACE),
            Key::Backspace => Some(key_code::DELETE),
            Key::Escape => Some(key_code::ESCAPE),
            Key::MetaRight => Some(key_code::RIGHT_COMMAND),
            Key::MetaLeft => Some(key_code::COMMAND),
            Key::ShiftLeft => Some(key_code::SHIFT),
            Key::CapsLock => Some(key_code::CAPS_LOCK),
            Key::AltLeft => Some(key_code::OPTION),
            Key::ControlLeft => Some(key_code::CONTROL),
            Key::ShiftRight => Some(key_code::RIGHT_SHIFT),
            Key::AltRight => Some(key_code::RIGHT_OPTION),
            Key::ControlRight => Some(key_code::RIGHT_CONTROL),
            Key::F17 => Some(key_code::F17),
            Key::F18 => Some(key_code::F18),
            Key::F19 => Some(key_code::F19),
            Key::F20 => Some(key_code::F20),
            Key::F5 => Some(key_code::F5),
            Key::F6 => Some(key_code::F6),
            Key::F7 => Some(key_code::F7),
            Key::F3 => Some(key_code::F3),
            Key::F8 => Some(key_code::F8),
            Key::F9 => Some(key_code::F9),
            Key::F11 => Some(key_code::F11),
            Key::F13 => Some(key_code::F13),
            Key::F16 => Some(key_code::F16),
            Key::F14 => Some(key_code::F14),
            Key::F10 => Some(key_code::F10),
            Key::F12 => Some(key_code::F12),
            Key::F15 => Some(key_code::F15),
            Key::Home => Some(key_code::HOME),
            Key::PageUp => Some(key_code::PAGE_UP),
            Key::Delete => Some(key_code::FORWARD_DELETE),
            Key::F4 => Some(key_code::F4),
            Key::End => Some(key_code::END),
            Key::F2 => Some(key_code::F2),
            Key::PageDown => Some(key_code::PAGE_DOWN),
            Key::F1 => Some(key_code::F1),
            Key::LeftArrow => Some(key_code::LEFT_ARROW),
            Key::RightArrow => Some(key_code::RIGHT_ARROW),
            Key::DownArrow => Some(key_code::DOWN_ARROW),
            Key::UpArrow => Some(key_code::UP_ARROW),
            Key::Raw(code) => Some(code),
            _ => None,
    }
}

/// The key a macOS code names; a code with no name is `Key::Raw(code)`.
pub open spec fn key_of_code(code: u16) -> Key {
    match code {
            0x00 => Key::KeyA,
            0x01 => Key::KeyS,
            0x02 => Key::KeyD,
            0x03 => Key::KeyF,
            0x04 => Key::KeyH,
            0x05 => Key::KeyG,
            0x06 => Key::KeyZ,
            0x07 => Key::KeyX,
            0x08 => Key::KeyC,
            0x09 => Key::KeyV,
            0x0B => Key::KeyB,
            0x0C => Key::KeyQ,
            0x0D => Key::KeyW,
            0x0E => Key::KeyE,
            0x0F => Key::KeyR,
            0x10 => Key::KeyY,
            0x11 => Key::KeyT,
            0x12 => Key::Num1,
            0x13 => Key::Num2,
            0x14 => Key::Num3,
            0x15 => Key::Num4,
            0x16 => Key::Num6,
            0x17 => Key::Num5,
            0x18 => Key::Equal,
            0x19 => Key::Num9,
            0x1A => Key::Num7,
            0x1B => Key::Minus,
            0x1C => Key::Num8,
            0x1D => Key::Num0,
            0x1E => Key::RightBracket,
            0x1F => Key::KeyO,
            0x20 => Key::KeyU,
            0x21 => Key::LeftBracket,
            0x22 => Key::KeyI,
            0x23 => Key::KeyP,
            0x25 => Key::KeyL,
            0x26 => Key::KeyJ,
            0x27 => Key::Quote,
            0x28 => Key::KeyK,
            0x29 => Key::SemiColon,
            0x2A => Key::BackSlash,
            0x2B => Key::Comma,
            0x2C => Key::Slash,
            0x2D => Key::KeyN,
            0x2E => Key::KeyM,
            0x2F => Key::Dot,
            0x32 => Key::Grave,
            0x24 => Key::Return,
            0x30 => Key::Tab,
            0x31 => Key::Space,
            0x33 => Key::Backspace,
            0x35 => Key::Escape,
            0x36 => Key::MetaRight,
            0x37 => Key::MetaLeft,
            0x38 => Key::ShiftLeft,
            0x39 => Key::CapsLock,
            0x3A => Key::AltLeft,
            0x3B => Key::ControlLeft,
            0x3C => Key::ShiftRight,
            0x3D => Key::AltRight,
            0x3E => Key::ControlRight,
            0x40 => Key::F17,
            0x4F => Key::F18,
            0x50 => Key::F19,
            0x5A => Key::F20,
            0x60 => Key::F5,
            0x61 => Key::F6,
            0x62 => Key::F7,
            0x63 => Key::F3,
            0x64 => Key::F8,
            0x65 => Key::F9,
            0x67 => Key::F11,
            0x69 => Key::F13,
            0x6A => Key::F16,
            0x6B => Key::F14,
            0x6D => Key::F10,
            0x6F => Key::F12,
            0x71 => Key::F15,
            0x73 => Key::Home,
            0x74 => Key::PageUp,
            0x75 => Key::Delete,
            0x76 => Key::F4,
            0x77 => Key::End,
            0x78 => Key::F2,
            0x79 => Key::PageDown,
            0x7A => Key::F1,
            0x7B => Key::LeftArrow,
            0x7C => Key::RightArrow,
            0x7D => Key::DownArrow,
            0x7E => Key::UpArrow,
            _ => Key::Raw(code),
    }
}

pub fn to_code(key: Key) -> (r: Option<u16>)
    ensures
        r == mac_code(key),
{
    match key {
            Key::KeyA => Some(key_code::ANSI_A),
            Key::KeyS => Some(key_code::ANSI_S),
            Key::KeyD => Some(key_code::ANSI_D),
            Key::KeyF => Some(key_code::ANSI_F),
            Key::KeyH => Some(key_code::ANSI_H),
            Key::KeyG => Some(key_code::ANSI_G),
            Key::KeyZ => Some(key_code::ANSI_Z),
            Key::KeyX => Some(key_code::ANSI_X),
            Key::KeyC => Some(key_code::ANSI_C),
            Key::KeyV => Some(key_code::ANSI_V),
            Key::KeyB => Some(key_code::ANSI_B),
            Key::KeyQ => Some(key_code::ANSI_Q),
            Key::KeyW => Some(key_code::ANSI_W),
            Key::KeyE => Some(key_code::ANSI_E),
            Key::KeyR => Some(key_code::ANSI_R),
            Key::KeyY => Some(key_code::ANSI_Y),
            Key::KeyT => Some(key_code::ANSI_T),
            Key::Num1 => Some(key_code::ANSI_1),
            Key::Num2 => Some(key_code::ANSI_2),
            Key::Num3 => Some(key_code::ANSI_3),
            Key::Num4 => Some(key_code::ANSI_4),
            Key::Num6 => Some(key_code::ANSI_6),
            Key::Num5 => Some(key_code::ANSI_5),
            Key::Equal => Some(key_code::ANSI_EQUAL),
            Key::Num9 => Some(key_code::ANSI_9),
            Key::Num7 => Some(key_code::ANSI_7),
            Key::Minus => Some(key_code::ANSI_MINUS),
            Key::Num8 => Some(key_code::ANSI_8),
            Key::Num0 => Some(key_code::ANSI_0),
            Key::RightBracket => Some(key_code::ANSI_RIGHT_BRACKET),
            Key::KeyO => Some(key_code::ANSI_O),
            Key::KeyU => Some(key_code::ANSI_U),
            Key::LeftBracket => Some(key_code::ANSI_LEFT_BRACKET),
            Key::KeyI => Some(key_code::ANSI_I),
            Key::KeyP => Some(key_code::ANSI_P),
            Key::KeyL => Some(key_code::ANSI_L),
            Key::KeyJ => Some(key_code::ANSI_J),
            Key::Quote => Some(key_code::ANSI_QUOTE),
            Key::KeyK => Some(key_code::ANSI_K),
            Key::SemiColon => Some(key_code::ANSI_SEMICOLON),
            Key::BackSlash => Some(key_code::ANSI_BACKSLASH),
            Key::Comma => Some(key_code::ANSI_COMMA),
            Key::Slash => Some(key_code::ANSI_SLASH),
            Key::KeyN => Some(key_code::ANSI_N),
            Key::KeyM => Some(key_code::ANSI_M),
            Key::Dot => Some(key_code::ANSI_PERIOD),
            Key::Grave => Some(key_code::ANSI_GRAVE),
            Key::Return => Some(key_code::RETURN),
            Key::Tab => Some(key_code::TAB),
            Key::Space => Some(key_code::SPACE),
            Key::Backspace => Some(key_code::DELETE),
            Key::Escape => Some(key_code::ESCAPE),
            Key::MetaRight => Some(key_code::RIGHT_COMMAND),
            Key::MetaLeft => Some(key_code::COMMAND),
            Key::ShiftLeft => Some(key_code::SHIFT),
            Key::CapsLock => Some(key_code::CAPS_LOCK),
            Key::AltLeft => Some(key_code::OPTION),
            Key::ControlLeft => Some(key_code::CONTROL),
            Key::ShiftRight => Some(key_code::RIGHT_SHIFT),
            Key::AltRight => Some(key_code::RIGHT_OPTION),
            Key::ControlRight => Some(key_code::RIGHT_CONTROL),
            Key::F17 => Some(key_code::F17),
            Key::F18 => Some(key_code::F18),
            Key::F19 => Some(key_code::F19),
            Key::F20 => Some(key_code::F20),
            Key::F5 => Some(key_code::F5),
            Key::F6 => Some(key_code::F6),
            Key::F7 => Some(key_code::F7),
            Key::F3 => Some(key_code::F3),
            Key::F8 => Some(key_code::F8),
            Key::F9 => Some(key_code::F9),
            Key::F11 => Some(key_code::F11),
            Key::F13 => Some(key_code::F13),
            Key::F16 => Some(key_code::F16),
            Key::F14 => Some(key_code::F14),
            Key::F10 => Some(key_code::F10),
            Key::F12 => Some(key_code::F12),
            Key::F15 => Some(key_code::F15),
            Key::Home => Some(key_code::HOME),
            Key::PageUp => Some(key_code::PAGE_UP),
            Key::Delete => Some(key_code::FORWARD_DELETE),
            Key::F4 => Some(key_code::F4),
            Key::End => Some(key_code::END),
            Key::F2 => Some(key_code::F2),
            Key::PageDown => Some(key_code::PAGE_DOWN),
            Key::F1 => Some(key_code::F1),
            Key::LeftArrow => Some(key_code::LEFT_ARROW),
            Key::RightArrow => Some(key_code::RIGHT_ARROW),
            Key::DownArrow => Some(key_code::DOWN_ARROW),
            Key::UpArrow => Some(key_code::UP_ARROW),
            Key::Raw(code) => Some(code),
            _ => None,
    }
}

pub fn from_code(code: u16) -> (r: Key)
    ensures
        r == key_of_code(code),
{
    match code {
            0x00 => Key::KeyA,
            0x01 => Key::KeyS,
            0x02 => Key::KeyD,
            0x03 => Key::KeyF,
            0x04 => Key::KeyH,
            0x05 => Key::KeyG,
            0x06 => Key::KeyZ,
            0x07 => Key::KeyX,
            0x08 => Key::KeyC,
            0x09 => Key::KeyV,
            0x0B => Key::KeyB,
            0x0C => Key::KeyQ,
            0x0D => Key::KeyW,
            0x0E => Key::KeyE,
            0x0F => Key::KeyR,
            0x10 => Key::KeyY,
            0x11 => Key::KeyT,
            0x12 => Key::Num1,
            0x13 => Key::Num2,
            0x14 => Key::Num3,
            0x15 => Key::Num4,
            0x16 => Key::Num6,
            0x17 => Key::Num5,
            0x18 => Key::Equal,
            0x19 => Key::Num9,
            0x1A => Key::Num7,
            0x1B => Key::Minus,
            0x1C => Key::Num8,
            0x1D => Key::Num0,
            0x1E => Key::RightBracket,
            0x1F => Key::KeyO,
            0x20 => Key::KeyU,
            0x21 => Key::LeftBracket,
            0x22 => Key::KeyI,
            0x23 => Key::KeyP,
            0x25 => Key::KeyL,
            0x26 => Key::KeyJ,
            0x27 => Key::Quote,
            0x28 => Key::KeyK,
            0x29 => Key::SemiColon,
            0x2A => Key::BackSlash,
            0x2B => Key::Comma,
            0x2C => Key::Slash,
            0x2D => Key::KeyN,
            0x2E => Key::KeyM,
            0x2F => Key::Dot,
            0x32 => Key::Grave,
            0x24 => Key::Return,
            0x30 => Key::Tab,
            0x31 => Key::Space,
            0x33 => Key::Backspace,
            0x35 => Key::Escape,
            0x36 => Key::MetaRight,
            0x37 => Key::MetaLeft,
            0x38 => Key::ShiftLeft,
            0x39 => Key::CapsLock,
            0x3A => Key::AltLeft,
            0x3B => Key::ControlLeft,
            0x3C => Key::ShiftRight,
            0x3D => Key::AltRight,
            0x3E => Key::ControlRight,
            0x40 => Key::F17,
            0x4F => Key::F18,
            0x50 => Key::F19,
            0x5A => Key::F20,
            0x60 => Key::F5,
            0x61 => Key::F6,
            0x62 => Key::F7,
            0x63 => Key::F3,
            0x64 => Key::F8,
            0x65 => Key::F9,
            0x67 => Key::F11,
            0x69 => Key::F13,
            0x6A => Key::F16,
            0x6B => Key::F14,
            0x6D => Key::F10,
            0x6F => Key::F12,
            0x71 => Key::F15,
            0x73 => Key::Home,
            0x74 => Key::PageUp,
            0x75 => Key::Delete,
            0x76 => Key::F4,
            0x77 => Key::End,
            0x78 => Key::F2,
            0x79 => Key::PageDown,
            0x7A => Key::F1,
            0x7B => Key::LeftArrow,
            0x7C => Key::RightArrow,
            0x7D => Key::DownArrow,
            0x7E => Key::UpArrow,
            _ => Key::Raw(code),
    }
}

/// Every code the tap reports names a key whose code is that code.
pub proof fn law_codes_round_trip(code: u16)
    ensures
        mac_code(key_of_code(code)) == Some(code),
{
}

/// A named key with a macOS code comes back as itself; the table names no key twice.
pub proof fn law_named_keys_round_trip(key: Key)
    requires
        !(key is Raw),
        mac_code(key) is Some,
    ensures
        key_of_code(mac_code(key)->0) == key,
{
}

/// Every named key posts its Carbon `kVK_*` code (`Events.h`), and a key with no macOS code
/// posts none; a raw code posts itself. Read with [`law_codes_round_trip`], each of these
/// codes is reported back as the key that posts it.
pub proof fn law_named_keys_have_their_carbon_codes(code: u16)
    ensures
        mac_code(Key::KeyA) == Some(0x00u16),
        mac_code(Key::KeyS) == Some(0x01u16),
        mac_code(Key::KeyD) == Some(0x02u16),
        mac_code(Key::KeyF) == Some(0x03u16),
        mac_code(Key::KeyH) == Some(0x04u16),
        mac_code(Key::KeyG) == Some(0x05u16),
        mac_code(Key::KeyZ) == Some(0x06u16),
        mac_code(Key::KeyX) == Some(0x07u16),
        mac_code(Key::KeyC) == Some(0x08u16),
        mac_code(Key::KeyV) == Some(0x09u16),
        mac_code(Key::KeyB) == Some(0x0Bu16),
        mac_code(Key::KeyQ) == Some(0x0Cu16),
        mac_code(Key::KeyW) == Some(0x0Du16),
        mac_code(Key::KeyE) == Some(0x0Eu16),
        mac_code(Key::KeyR) == Some(0x0Fu16),
        mac_code(Key::KeyY) == Some(0x10u16),
        mac_code(Key::KeyT) == Some(0x11u16),
        mac_code(Key::Num1) == Some(0x12u16),
        mac_code(Key::Num2) == Some(0x13u16),
        mac_code(Key::Num3) == Some(0x14u16),
        mac_code(Key::Num4) == Some(0x15u16),
        mac_code(Key::Num6) == Some(0x16u16),
        mac_code(Key::Num5) == Some(0x17u16),
        mac_code(Key::Equal) == Some(0x18u16),
        mac_code(Key::Num9) == Some(0x19u16),
        mac_code(Key::Num7) == Some(0x1Au16),
        mac_code(Key::Minus) == Some(0x1Bu16),
        mac_code(Key::Num8) == Some(0x1Cu16),
        mac_code(Key::Num0) == Some(0x1Du16),
        mac_code(Key::RightBracket) == Some(0x1Eu16),
        mac_code(Key::KeyO) == Some(0x1Fu16),
        mac_code(Key::KeyU) == Some(0x20u16),
        mac_code(Key::LeftBracket) == Some(0x21u16),
        mac_code(Key::KeyI) == Some(0x22u16),
        mac_code(Key::KeyP) == Some(0x23u16),
        mac_code(Key::KeyL) == Some(0x25u16),
        mac_code(Key::KeyJ) == Some(0x26u16),
        mac_code(Key::Quote) == Some(0x27u16),
        mac_code(Key::KeyK) == Some(0x28u16),
        mac_code(Key::SemiColon) == Some(0x29u16),
        mac_code(Key::BackSlash) == Some(0x2Au16),
        mac_code(Key::Comma) == Some(0x2Bu16),
        mac_code(Key::Slash) == Some(0x2Cu16),
        mac_code(Key::KeyN) == Some(0x2Du16),
        mac_code(Key::KeyM) == Some(0x2Eu16),
        mac_code(Key::Dot) == Some(0x2Fu16),
        mac_code(Key::Grave) == Some(0x32u16),
        mac_code(Key::Return) == Some(0x24u16),
        mac_code(Key::Tab) == Some(0x30u16),
        mac_code(Key::Space) == Some(0x31u16),
        mac_code(Key::Backspace) == Some(0x33u16),
        mac_code(Key::Escape) == Some(0x35u16),
        mac_code(Key::MetaRight) == Some(0x36u16),
        mac_code(Key::MetaLeft) == Some(0x37u16),
        mac_code(Key::ShiftLeft) == Some(0x38u16),
        mac_code(Key::CapsLock) == Some(0x39u16),
        mac_code(Key::AltLeft) == Some(0x3Au16),
        mac_code(Key::ControlLeft) == Some(0x3Bu16),
        mac_code(Key::ShiftRight) == Some(0x3Cu16),
        mac_code(Key::AltRight) == Some(0x3Du16),
        mac_code(Key::ControlRight) == Some(0x3Eu16),
        mac_code(Key::F17) == Some(0x40u16),
        mac_code(Key::F18) == Some(0x4Fu16),
        mac_code(Key::F19) == Some(0x50u16),
        mac_code(Key::F20) == Some(0x5Au16),
        mac_code(Key::F5) == Some(0x60u16),
        mac_code(Key::F6) == Some(0x61u16),
        mac_code(Key::F7) == Some(0x62u16),
        mac_code(Key::F3) == Some(0x63u16),
        mac_code(Key::F8) == Some(0x64u16),
        mac_code(Key::F9) == Some(0x65u16),
        mac_code(Key::F11) == Some(0x67u16),
        mac_code(Key::F13) == Some(0x69u16),
        mac_code(Key::F16) == Some(0x6Au16),
        mac_code(Key::F14) == Some(0x6Bu16),
        mac_code(Key::F10) == Some(0x6Du16),
        mac_code(Key::F12) == Some(0x6Fu16),
        mac_code(Key::F15) == Some(0x71u16),
        mac_code(Key::Home) == Some(0x73u16),
        mac_code(Key::PageUp) == Some(0x74u16),
        mac_code(Key::Delete) == Some(0x75u16),
        mac_code(Key::F4) == Some(0x76u16),
        mac_code(Key::End) == Some(0x77u16),
        mac_code(Key::F2) == Some(0x78u16),
        mac_code(Key::PageDown) == Some(0x79u16),
        mac_code(Key::F1) == Some(0x7Au16),
        mac_code(Key::LeftArrow) == Some(0x7Bu16),
        mac_code(Key::RightArrow) == Some(0x7Cu16),
        mac_code(Key::DownArrow) == Some(0x7Du16),
        mac_code(Key::UpArrow) == Some(0x7Eu16),
        mac_code(Key::F21) is None,
        mac_code(Key::F22) is None,
        mac_code(Key::F23) is None,
        mac_code(Key::F24) is None,
        mac_code(Key::Insert) is None,
        mac_code(Key::Raw(code)) == Some(code),
{
}

/// What an interceptor's answer does to the event it was given.
#[derive(PartialEq, Eq, Structural, Debug)]
pub enum Decision {
    /// Let the event through unchanged.
    Pass,
    /// Replace it with this event.
    Remap(KeyEvent),
    /// Swallow it.
    Drop,
}

/// `None` drops; the input itself passes; anything else remaps.
pub fn decide(input: &KeyEvent, out: Option<KeyEvent>) -> (r: Decision)
    ensures
        r == (match out {
            None => Decision::Drop,
            Some(e) => if e == *input {
                Decision::Pass
            } else {
                Decision::Remap(e)
            },
        }),
{
    match out {
        None => Decision::Drop,
        Some(e) => if e == *input {
            Decision::Pass
        } else {
            Decision::Remap(e)
        },
    }
}

/// The bit each `FlagsChanged` key holds in [`FlagsChangedDown`]; other keys have none.
pub open spec fn spec_flags_changed_bit(key: Key) -> Option<u16> {
    match key {
        Key::ShiftLeft => Some(0x0001u16),
        Key::ShiftRight => Some(0x0002u16),
        Key::ControlLeft => Some(0x0004u16),
        Key::ControlRight => Some(0x0008u16),
        Key::AltLeft => Some(0x0010u16),
        Key::AltRight => Some(0x0020u16),
        Key::MetaLeft => Some(0x0040u16),
        Key::MetaRight => Some(0x0080u16),
        Key::CapsLock => Some(0x0100u16),
        _ => None,
    }
}

pub fn flags_changed_bit(key: Key) -> (r: Option<u16>)
    ensures
        r == spec_flags_changed_bit(key),
{
    match key {
        Key::ShiftLeft => Some(0x0001),
        Key::ShiftRight => Some(0x0002),
        Key::ControlLeft => Some(0x0004),
        Key::ControlRight => Some(0x0008),
        Key::AltLeft => Some(0x0010),
        Key::AltRight => Some(0x0020),
        Key::MetaLeft => Some(0x0040),
        Key::MetaRight => Some(0x0080),
        Key::CapsLock => Some(0x0100),
        _ => None,
    }
}

/// Each `FlagsChanged` key has its own single bit: both sides of a modifier, and caps lock,
/// are told apart.
pub proof fn law_flags_changed_bits_are_distinct(a: Key, b: Key)
    requires
        spec_flags_changed_bit(a) is Some,
        spec_flags_changed_bit(b) is Some,
    ensures
        a != b ==> spec_flags_changed_bit(a)->0 & spec_flags_changed_bit(b)->0 == 0,
        spec_flags_changed_bit(a)->0 != 0,
{
    let x = spec_flags_changed_bit(a)->0;
    let y = spec_flags_changed_bit(b)->0;
    assert(x != y ==> x & y == 0) by (bit_vector)
        requires
            (x == 1u16 || x == 2u16 || x == 4u16 || x == 8u16 || x == 16u16 || x == 32u16 || x == 64u16 || x == 128u16 || x == 256u16),
            (y == 1u16 || y == 2u16 || y == 4u16 || y == 8u16 || y == 16u16 || y == 32u16 || y == 64u16 || y == 128u16 || y == 256u16),
    ;
}

/// The physical down state of each `FlagsChanged` key. Direction is a toggle of this set, not
/// the event's flag bit: that bit is shared by both sides of a modifier, and caps lock's is a
/// latch.
pub struct FlagsChangedDown {
    bits: u16,
}

impl FlagsChangedDown {
    /// The held set, one bit per key.
    pub closed spec fn held(&self) -> u16 {
        self.bits
    }

    pub fn new() -> (r: Self)
        ensures
            r.held() == 0,
    {
        FlagsChangedDown { bits: 0 }
    }

    /// Flip `key`'s bit: it went up if it was held, down if it was not. A key with no bit is
    /// `None` and changes nothing.
    pub fn toggle(&mut self, key: Key) -> (r: Option<PressType>)
        ensures
            match spec_flags_changed_bit(key) {
                None => r is None && final(self).held() == old(self).held(),
                Some(bit) => if old(self).held() & bit != 0 {
                    r == Some(PressType::Up) && final(self).held() == old(self).held() & !bit
                } else {
                    r == Some(PressType::Down) && final(self).held() == old(self).held() | bit
                },
            },
    {
        let bit = match flags_changed_bit(key) {
            Some(bit) => bit,
            None => return None,
        };
        let held = self.bits;
        if held & bit != 0 {
            self.bits = held & !bit;
            Some(PressType::Up)
        } else {
            self.bits = held | bit;
            Some(PressType::Down)
        }
    }
}

/// Two toggles of one key report opposite directions and leave the held set as it was; a
/// toggle of one key leaves every other key's bit alone.
pub proof fn law_toggle(held: u16, key: Key, other: Key)
    requires
        spec_flags_changed_bit(key) is Some,
        spec_flags_changed_bit(other) is Some,
        key != other,
    ensures
        ({
            let bit = spec_flags_changed_bit(key)->0;
            let obit = spec_flags_changed_bit(other)->0;
            &&& (held & bit != 0) ==> ((held & !bit) & bit == 0 && (held & !bit) | bit == held)
            &&& (held & bit == 0) ==> ((held | bit) & bit != 0 && (held | bit) & !bit == held)
            &&& (held & !bit) & obit == held & obit
            &&& (held | bit) & obit == held & obit
        }),
{
    let bit = spec_flags_changed_bit(key)->0;
    let obit = spec_flags_changed_bit(other)->0;
    law_flags_changed_bits_are_distinct(key, other);
    assert({
        &&& (held & bit != 0) ==> ((held & !bit) & bit == 0 && (held & !bit) | bit == held)
        &&& (held & bit == 0) ==> ((held | bit) & bit != 0 && (held | bit) & !bit == held)
        &&& (held & !bit) & obit == held & obit
        &&& (held | bit) & obit == held & obit
    }) by (bit_vector)
        requires
            (bit == 1u16 || bit == 2u16 || bit == 4u16 || bit == 8u16 || bit == 16u16 || bit == 32u16 || bit == 64u16 || bit == 128u16 || bit == 256u16),
            bit & obit == 0u16,
    ;
}

/// The kind of OS keyboard event a tap reports.
#[derive(Clone, Copy, PartialEq, Eq, Structural, Debug)]
pub enum KeyboardEventKind {
    KeyDown,
    KeyUp,
    /// A modifier or caps lock changed; its direction is not in the event.
    FlagsChanged,
    /// Anything else the tap sees.
    Other,
}

/// Which way `key` went: key events say so, a `FlagsChanged` toggles `down`.
pub fn press_of_key(kind: KeyboardEventKind, key: Key, down: &mut FlagsChangedDown) -> (r: Option<PressType>)
    ensures
        kind == KeyboardEventKind::KeyDown ==> r == Some(PressType::Down) && final(down).held() == old(down).held(),
        kind == KeyboardEventKind::KeyUp ==> r == Some(PressType::Up) && final(down).held() == old(down).held(),
        kind == KeyboardEventKind::Other ==> r is None && final(down).held() == old(down).held(),
        kind == KeyboardEventKind::FlagsChanged ==> match spec_flags_changed_bit(key) {
            None => r is None && final(down).held() == old(down).held(),
            Some(bit) => if old(down).held() & bit != 0 {
                r == Some(PressType::Up) && final(down).held() == old(down).held() & !bit
            } else {
                r == Some(PressType::Down) && final(down).held() == old(down).held() | bit
            },
        },
{
    match kind {
        KeyboardEventKind::KeyDown => Some(PressType::Down),
        KeyboardEventKind::KeyUp => Some(PressType::Up),
        KeyboardEventKind::FlagsChanged => down.toggle(key),
        KeyboardEventKind::Other => None,
    }
}

/// `CGEventFlags` bits, as the window server defines them.
pub const CG_FLAG_ALPHA_SHIFT: u64 = 0x0001_0000;
pub const CG_FLAG_SHIFT: u64 = 0x0002_0000;
pub const CG_FLAG_CONTROL: u64 = 0x0004_0000;
pub const CG_FLAG_ALTERNATE: u64 = 0x0008_0000;
pub const CG_FLAG_COMMAND: u64 = 0x0010_0000;
pub const CG_FLAG_NUMERIC_PAD: u64 = 0x0020_0000;
pub const CG_FLAG_SECONDARY_FN: u64 = 0x0080_0000;

/// Whether a clean private source puts `NumericPad` on `code`: the four arrows, and the keypad
/// apart from clear.
pub open spec fn is_numeric_pad_code(code: u16) -> bool {
    code == key_code::LEFT_ARROW
            || code == key_code::RIGHT_ARROW
            || code == key_code::DOWN_ARROW
            || code == key_code::UP_ARROW
            || (0x41 <= code <= 0x5C && code != key_code::ANSI_KEYPAD_CLEAR && (
                code == 0x41 || code == 0x43 || code == 0x45 || code == 0x4B || code == 0x4C
                || code == 0x4E || 0x51 <= code <= 0x59 || code == 0x5B || code == 0x5C))
}

/// The codes that carry `NumericPad` on their own are the four arrows (`0x7B` to `0x7E`) and
/// the keypad keys (`kVK_ANSI_Keypad*`) apart from clear (`0x47`); a space, a letter or any
/// other key carries none.
pub proof fn law_numeric_pad_codes(code: u16)
    ensures
        is_numeric_pad_code(code) <==> set![
            0x7Bu16, 0x7Cu16, 0x7Du16, 0x7Eu16, 0x41u16, 0x43u16, 0x45u16, 0x4Bu16, 0x4Cu16, 0x4Eu16,
            0x51u16, 0x52u16, 0x53u16, 0x54u16, 0x55u16, 0x56u16, 0x57u16, 0x58u16, 0x59u16, 0x5Bu16,
            0x5Cu16,
        ].contains(code),
{
}

/// Non-modifier flag bits `code` carries of its own accord.
pub fn intrinsic_flags(code: u16) -> (r: u64)
    ensures
        r == (if is_numeric_pad_code(code) { CG_FLAG_NUMERIC_PAD } else { 0 }),
{
    if code == key_code::LEFT_ARROW
            || code == key_code::RIGHT_ARROW
            || code == key_code::DOWN_ARROW
            || code == key_code::UP_ARROW
            || code == key_code::ANSI_KEYPAD_DECIMAL
            || code == key_code::ANSI_KEYPAD_MULTIPLY
            || code == key_code::ANSI_KEYPAD_PLUS
            || code == key_code::ANSI_KEYPAD_DIVIDE
            || code == key_code::ANSI_KEYPAD_ENTER
            || code == key_code::ANSI_KEYPAD_MINUS
            || code == key_code::ANSI_KEYPAD_EQUAL
            || code == key_code::ANSI_KEYPAD_0
            || code == key_code::ANSI_KEYPAD_1
            || code == key_code::ANSI_KEYPAD_2
            || code == key_code::ANSI_KEYPAD_3
            || code == key_code::ANSI_KEYPAD_4
            || code == key_code::ANSI_KEYPAD_5
            || code == key_code::ANSI_KEYPAD_6
            || code == key_code::ANSI_KEYPAD_7
            || code == key_code::ANSI_KEYPAD_8
            || code == key_code::ANSI_KEYPAD_9 {
        CG_FLAG_NUMERIC_PAD
    } else {
        0
    }
}

/// The window-server flags for portable `flags`: one native bit per portable flag.
pub open spec fn spec_to_cg(flags: ModifierFlags) -> u64 {
    (if flags.has_bits(1) { CG_FLAG_CONTROL } else { 0 })
    | (if flags.has_bits(2) { CG_FLAG_COMMAND } else { 0 })
    | (if flags.has_bits(4) { CG_FLAG_ALTERNATE } else { 0 })
    | (if flags.has_bits(8) { CG_FLAG_SHIFT } else { 0 })
    | (if flags.has_bits(16) { CG_FLAG_SECONDARY_FN } else { 0 })
}

/// The portable bits of window-server `flags`.
pub open spec fn spec_from_cg_bits(flags: u64) -> u8 {
    (if flags & CG_FLAG_CONTROL != 0 { 1u8 } else { 0u8 })
    | (if flags & CG_FLAG_COMMAND != 0 { 2u8 } else { 0u8 })
    | (if flags & CG_FLAG_ALTERNATE != 0 { 4u8 } else { 0u8 })
    | (if flags & CG_FLAG_SHIFT != 0 { 8u8 } else { 0u8 })
    | (if flags & CG_FLAG_SECONDARY_FN != 0 { 16u8 } else { 0u8 })
}

pub fn to_cg(flags: ModifierFlags) -> (r: u64)
    ensures
        r == spec_to_cg(flags),
{
    let control = if flags.contains(ModifierFlags::control()) { CG_FLAG_CONTROL } else { 0 };
    let command = if flags.contains(ModifierFlags::command()) { CG_FLAG_COMMAND } else { 0 };
    let alternate = if flags.contains(ModifierFlags::alt()) { CG_FLAG_ALTERNATE } else { 0 };
    let shift = if flags.contains(ModifierFlags::shift()) { CG_FLAG_SHIFT } else { 0 };
    let secondary = if flags.contains(ModifierFlags::function()) { CG_FLAG_SECONDARY_FN } else { 0 };
    control | command | alternate | shift | secondary
}

/// The window-server flags posted for portable `flags` carry each window-server modifier bit
/// exactly when `flags` has the matching portable flag (control `0x0004_0000`, command
/// `0x0010_0000`, alternate `0x0008_0000`, shift `0x0002_0000`, secondary fn `0x0080_0000`),
/// and no other bit; reading them back gives the flags again.
pub proof fn law_posted_flags_are_the_portable_flags(flags: ModifierFlags)
    ensures
        (spec_to_cg(flags) & 0x0004_0000u64 != 0) == (flags@ & 1u8 == 1u8),
        (spec_to_cg(flags) & 0x0010_0000u64 != 0) == (flags@ & 2u8 == 2u8),
        (spec_to_cg(flags) & 0x0008_0000u64 != 0) == (flags@ & 4u8 == 4u8),
        (spec_to_cg(flags) & 0x0002_0000u64 != 0) == (flags@ & 8u8 == 8u8),
        (spec_to_cg(flags) & 0x0080_0000u64 != 0) == (flags@ & 16u8 == 16u8),
        spec_to_cg(flags) & !0x009E_0000u64 == 0,
        spec_from_cg_bits(spec_to_cg(flags)) == flags@ & 31u8,
{
    let b: u8 = flags@;
    let t: u64 = spec_to_cg(flags);
    assert(t == (if b & 1u8 == 1u8 { 0x0004_0000u64 } else { 0u64 }) | (if b & 2u8 == 2u8 {
        0x0010_0000u64
    } else {
        0u64
    }) | (if b & 4u8 == 4u8 { 0x0008_0000u64 } else { 0u64 }) | (if b & 8u8 == 8u8 {
        0x0002_0000u64
    } else {
        0u64
    }) | (if b & 16u8 == 16u8 { 0x0080_0000u64 } else { 0u64 }));
    assert({
        &&& (t & 0x0004_0000u64 != 0) == (b & 1u8 == 1u8)
        &&& (t & 0x0010_0000u64 != 0) == (b & 2u8 == 2u8)
        &&& (t & 0x0008_0000u64 != 0) == (b & 4u8 == 4u8)
        &&& (t & 0x0002_0000u64 != 0) == (b & 8u8 == 8u8)
        &&& (t & 0x0080_0000u64 != 0) == (b & 16u8 == 16u8)
        &&& t & !0x009E_0000u64 == 0
        &&& ((if t & 0x0004_0000u64 != 0 { 1u8 } else { 0u8 }) | (if t & 0x0010_0000u64 != 0 {
            2u8
        } else {
            0u8
        }) | (if t & 0x0008_0000u64 != 0 { 4u8 } else { 0u8 }) | (if t & 0x0002_0000u64 != 0 {
            8u8
        } else {
            0u8
        }) | (if t & 0x0080_0000u64 != 0 { 16u8 } else { 0u8 })) == b & 31u8
    }) by (bit_vector)
        requires
            t == (if b & 1u8 == 1u8 { 0x0004_0000u64 } else { 0u64 }) | (if b & 2u8 == 2u8 {
                0x0010_0000u64
            } else {
                0u64
            }) | (if b & 4u8 == 4u8 { 0x0008_0000u64 } else { 0u64 }) | (if b & 8u8 == 8u8 {
                0x0002_0000u64
            } else {
                0u64
            }) | (if b & 16u8 == 16u8 { 0x0080_0000u64 } else { 0u64 }),
    ;
}

/// Portable flags an incoming event carries, so a passed-through key keeps a modifier that
/// was baked onto it.
pub fn from_cg(flags: u64) -> (r: ModifierFlags)
    ensures
        r@ == spec_from_cg_bits(flags),
{
    let mut out = ModifierFlags::empty();
    out.set(ModifierFlags::control(), flags & CG_FLAG_CONTROL != 0);
    out.set(ModifierFlags::command(), flags & CG_FLAG_COMMAND != 0);
    out.set(ModifierFlags::alt(), flags & CG_FLAG_ALTERNATE != 0);
    out.set(ModifierFlags::shift(), flags & CG_FLAG_SHIFT != 0);
    out.set(ModifierFlags::function(), flags & CG_FLAG_SECONDARY_FN != 0);
    proof {
        let c = flags & CG_FLAG_CONTROL != 0;
        let m = flags & CG_FLAG_COMMAND != 0;
        let a = flags & CG_FLAG_ALTERNATE != 0;
        let s = flags & CG_FLAG_SHIFT != 0;
        let f = flags & CG_FLAG_SECONDARY_FN != 0;
        let x0 = 0u8;
        let x1 = if c { x0 | 1u8 } else { x0 & !1u8 };
        let x2 = if m { x1 | 2u8 } else { x1 & !2u8 };
        let x3 = if a { x2 | 4u8 } else { x2 & !4u8 };
        let x4 = if s { x3 | 8u8 } else { x3 & !8u8 };
        let x5 = if f { x4 | 16u8 } else { x4 & !16u8 };
        assert(x5 == (if c { 1u8 } else { 0u8 }) | (if m { 2u8 } else { 0u8 }) | (if a { 4u8 } else { 0u8 })
            | (if s { 8u8 } else { 0u8 }) | (if f { 16u8 } else { 0u8 })) by (bit_vector)
            requires
                x0 == 0u8,
                x1 == (if c { x0 | 1u8 } else { x0 & !1u8 }),
                x2 == (if m { x1 | 2u8 } else { x1 & !2u8 }),
                x3 == (if a { x2 | 4u8 } else { x2 & !4u8 }),
                x4 == (if s { x3 | 8u8 } else { x3 & !8u8 }),
                x5 == (if f { x4 | 16u8 } else { x4 & !16u8 }),
        ;
    }
    out
}

/// Reading back the flags written for an event gives the portable flags, whatever else the
/// event carries (the intrinsic `NumericPad` bit included).
pub proof fn law_flags_round_trip(bits: u8, extra: u64)
    requires
        bits & !31u8 == 0,
        extra & (CG_FLAG_CONTROL | CG_FLAG_COMMAND | CG_FLAG_ALTERNATE | CG_FLAG_SHIFT | CG_FLAG_SECONDARY_FN) == 0,
    ensures
        spec_from_cg_bits(
            ((if bits & 1 == 1 { CG_FLAG_CONTROL } else { 0 })
            | (if bits & 2 == 2 { CG_FLAG_COMMAND } else { 0 })
            | (if bits & 4 == 4 { CG_FLAG_ALTERNATE } else { 0 })
            | (if bits & 8 == 8 { CG_FLAG_SHIFT } else { 0 })
            | (if bits & 16 == 16 { CG_FLAG_SECONDARY_FN } else { 0 })) | extra,
        ) == bits,
{
    let w = ((if bits & 1 == 1 { CG_FLAG_CONTROL } else { 0 })
            | (if bits & 2 == 2 { CG_FLAG_COMMAND } else { 0 })
            | (if bits & 4 == 4 { CG_FLAG_ALTERNATE } else { 0 })
            | (if bits & 8 == 8 { CG_FLAG_SHIFT } else { 0 })
            | (if bits & 16 == 16 { CG_FLAG_SECONDARY_FN } else { 0 })) | extra;
    assert(
        ((if w & 0x0004_0000u64 != 0 { 1u8 } else { 0u8 })
        | (if w & 0x0010_0000u64 != 0 { 2u8 } else { 0u8 })
        | (if w & 0x0008_0000u64 != 0 { 4u8 } else { 0u8 })
        | (if w & 0x0002_0000u64 != 0 { 8u8 } else { 0u8 })
        | (if w & 0x0080_0000u64 != 0 { 16u8 } else { 0u8 })) == bits
    ) by (bit_vector)
        requires
            bits & !31u8 == 0u8,
            extra & (0x0004_0000u64 | 0x0010_0000u64 | 0x0008_0000u64 | 0x0002_0000u64 | 0x0080_0000u64) == 0u64,
            w == ((if bits & 1u8 == 1u8 { 0x0004_0000u64 } else { 0u64 })
            | (if bits & 2u8 == 2u8 { 0x0010_0000u64 } else { 0u64 })
            | (if bits & 4u8 == 4u8 { 0x0008_0000u64 } else { 0u64 })
            | (if bits & 8u8 == 8u8 { 0x0002_0000u64 } else { 0u64 })
            | (if bits & 16u8 == 16u8 { 0x0080_0000u64 } else { 0u64 })) | extra,
    ;
}

/// The parts of a keyboard event to post: its code, whether it goes down, and the exact flags
/// it carries on the wire.
#[derive(Clone, Copy, PartialEq, Eq, Structural, Debug)]
pub struct WireKeyEvent {
    pub code: u16,
    pub down: bool,
    pub flags: u64,
}

/// The event to post for `key` going `press` with exactly `flags`: the portable flags plus the
/// key's intrinsic ones. A key with no code is [`EmitError::Unmappable`].
pub fn wire_event(key: Key, press: PressType, flags: ModifierFlags) -> (r: Result<WireKeyEvent, EmitError>)
    ensures
        match mac_code(key) {
            None => r == Err::<WireKeyEvent, EmitError>(EmitError::Unmappable(key)),
            Some(code) => r == Ok::<WireKeyEvent, EmitError>(WireKeyEvent {
                code,
                down: press == PressType::Down,
                flags: spec_to_cg(flags) | (if is_numeric_pad_code(code) { CG_FLAG_NUMERIC_PAD } else { 0 }),
            }),
        },
{
    let code = match to_code(key) {
        Some(code) => code,
        None => return Err(EmitError::Unmappable(key)),
    };
    let down = match press {
        PressType::Down => true,
        PressType::Up => false,
    };
    Ok(WireKeyEvent { code, down, flags: to_cg(flags) | intrinsic_flags(code) })
}

/// Calls `RandomState::new`: keys seeded at random, per process. Nothing is claimed of them.
#[verifier::external_body]
fn random_state() -> (r: RandomState) {
    RandomState::new()
}

/// Calls `BuildHasher::build_hasher` on a `RandomState`: a fresh hasher under its keys.
/// Nothing is claimed of its state.
#[verifier::external_body]
fn build_hasher(state: &RandomState) -> (r: DefaultHasher) {
    state.build_hasher()
}

/// Marker an emitted event carries so the interceptor skips its own output.
#[derive(Clone, Copy, PartialEq, Eq, Structural, Debug)]
pub struct Tag(i64);

impl Tag {
    /// Per-process random, so an interceptor skips only its own output.
    pub fn new() -> (r: Self) {
        let mut h = build_hasher(&random_state());
        h.write(&[0u8]);
        let v = h.finish();
        Tag(v as i64)
    }
}

} // verus!
