//! macOS virtual key codes (`kVK_*` in Carbon's `Events.h`), as the event tap reports them.

use vstd::prelude::*;

verus! {

pub const ANSI_A: u16 = 0x00;
pub const ANSI_S: u16 = 0x01;
pub const ANSI_D: u16 = 0x02;
pub const ANSI_F: u16 = 0x03;
pub const ANSI_H: u16 = 0x04;
pub const ANSI_G: u16 = 0x05;
pub const ANSI_Z: u16 = 0x06;
pub const ANSI_X: u16 = 0x07;
pub const ANSI_C: u16 = 0x08;
pub const ANSI_V: u16 = 0x09;
pub const ANSI_B: u16 = 0x0B;
pub const ANSI_Q: u16 = 0x0C;
pub const ANSI_W: u16 = 0x0D;
pub const ANSI_E: u16 = 0x0E;
pub const ANSI_R: u16 = 0x0F;
pub const ANSI_Y: u16 = 0x10;
pub const ANSI_T: u16 = 0x11;
pub const ANSI_1: u16 = 0x12;
pub const ANSI_2: u16 = 0x13;
pub const ANSI_3: u16 = 0x14;
pub const ANSI_4: u16 = 0x15;
pub const ANSI_6: u16 = 0x16;
pub const ANSI_5: u16 = 0x17;
pub const ANSI_EQUAL: u16 = 0x18;
pub const ANSI_9: u16 = 0x19;
pub const ANSI_7: u16 = 0x1A;
pub const ANSI_MINUS: u16 = 0x1B;
pub const ANSI_8: u16 = 0x1C;
pub const ANSI_0: u16 = 0x1D;
pub const ANSI_RIGHT_BRACKET: u16 = 0x1E;
pub const ANSI_O: u16 = 0x1F;
pub const ANSI_U: u16 = 0x20;
pub const ANSI_LEFT_BRACKET: u16 = 0x21;
pub const ANSI_I: u16 = 0x22;
pub const ANSI_P: u16 = 0x23;
pub const ANSI_L: u16 = 0x25;
pub const ANSI_J: u16 = 0x26;
pub const ANSI_QUOTE: u16 = 0x27;
pub const ANSI_K: u16 = 0x28;
pub const ANSI_SEMICOLON: u16 = 0x29;
pub const ANSI_BACKSLASH: u16 = 0x2A;
pub const ANSI_COMMA: u16 = 0x2B;
pub const ANSI_SLASH: u16 = 0x2C;
pub const ANSI_N: u16 = 0x2D;
pub const ANSI_M: u16 = 0x2E;
pub const ANSI_PERIOD: u16 = 0x2F;
pub const ANSI_GRAVE: u16 = 0x32;
pub const RETURN: u16 = 0x24;
pub const TAB: u16 = 0x30;
pub const SPACE: u16 = 0x31;
pub const DELETE: u16 = 0x33;
pub const ESCAPE: u16 = 0x35;
pub const RIGHT_COMMAND: u16 = 0x36;
pub const COMMAND: u16 = 0x37;
pub const SHIFT: u16 = 0x38;
pub const CAPS_LOCK: u16 = 0x39;
pub const OPTION: u16 = 0x3A;
pub const CONTROL: u16 = 0x3B;
pub const RIGHT_SHIFT: u16 = 0x3C;
pub const RIGHT_OPTION: u16 = 0x3D;
pub const RIGHT_CONTROL: u16 = 0x3E;
pub const F17: u16 = 0x40;
pub const F18: u16 = 0x4F;
pub const F19: u16 = 0x50;
pub const F20: u16 = 0x5A;
pub const F5: u16 = 0x60;
pub const F6: u16 = 0x61;
pub const F7: u16 = 0x62;
pub const F3: u16 = 0x63;
pub const F8: u16 = 0x64;
pub const F9: u16 = 0x65;
pub const F11: u16 = 0x67;
pub const F13: u16 = 0x69;
pub const F16: u16 = 0x6A;
pub const F14: u16 = 0x6B;
pub const F10: u16 = 0x6D;
pub const F12: u16 = 0x6F;
pub const F15: u16 = 0x71;
pub const HOME: u16 = 0x73;
pub const PAGE_UP: u16 = 0x74;
pub const FORWARD_DELETE: u16 = 0x75;
pub const F4: u16 = 0x76;
pub const END: u16 = 0x77;
pub const F2: u16 = 0x78;
pub const PAGE_DOWN: u16 = 0x79;
pub const F1: u16 = 0x7A;
pub const LEFT_ARROW: u16 = 0x7B;
pub const RIGHT_ARROW: u16 = 0x7C;
pub const DOWN_ARROW: u16 = 0x7D;
pub const UP_ARROW: u16 = 0x7E;
pub const ANSI_KEYPAD_DECIMAL: u16 = 0x41;
pub const ANSI_KEYPAD_MULTIPLY: u16 = 0x43;
pub const ANSI_KEYPAD_PLUS: u16 = 0x45;
pub const ANSI_KEYPAD_CLEAR: u16 = 0x47;
pub const ANSI_KEYPAD_DIVIDE: u16 = 0x4B;
pub const ANSI_KEYPAD_ENTER: u16 = 0x4C;
pub const ANSI_KEYPAD_MINUS: u16 = 0x4E;
pub const ANSI_KEYPAD_EQUAL: u16 = 0x51;
pub const ANSI_KEYPAD_0: u16 = 0x52;
pub const ANSI_KEYPAD_1: u16 = 0x53;
pub const ANSI_KEYPAD_2: u16 = 0x54;
pub const ANSI_KEYPAD_3: u16 = 0x55;
pub const ANSI_KEYPAD_4: u16 = 0x56;
pub const ANSI_KEYPAD_5: u16 = 0x57;
pub const ANSI_KEYPAD_6: u16 = 0x58;
pub const ANSI_KEYPAD_7: u16 = 0x59;
pub const ANSI_KEYPAD_8: u16 = 0x5B;
pub const ANSI_KEYPAD_9: u16 = 0x5C;

} // verus!
