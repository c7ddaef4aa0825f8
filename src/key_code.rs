use vstd::prelude::*;

verus! {

// HID keyboard usages of the keys the key map uses.
pub const A: u8 = 0x04;
pub const B: u8 = 0x05;
pub const C: u8 = 0x06;
pub const D: u8 = 0x07;
pub const E: u8 = 0x08;
pub const F: u8 = 0x09;
pub const G: u8 = 0x0A;
pub const H: u8 = 0x0B;
pub const I: u8 = 0x0C;
pub const J: u8 = 0x0D;
pub const K: u8 = 0x0E;
pub const L: u8 = 0x0F;
pub const M: u8 = 0x10;
pub const N: u8 = 0x11;
pub const O: u8 = 0x12;
pub const P: u8 = 0x13;
pub const Q: u8 = 0x14;
pub const R: u8 = 0x15;
pub const S: u8 = 0x16;
pub const T: u8 = 0x17;
pub const U: u8 = 0x18;
pub const V: u8 = 0x19;
pub const W: u8 = 0x1A;
pub const X: u8 = 0x1B;
pub const Y: u8 = 0x1C;
pub const Z: u8 = 0x1D;
pub const KB1: u8 = 0x1E;
pub const KB2: u8 = 0x1F;
pub const KB3: u8 = 0x20;
pub const KB4: u8 = 0x21;
pub const KB5: u8 = 0x22;
pub const KB6: u8 = 0x23;
pub const KB7: u8 = 0x24;
pub const KB8: u8 = 0x25;
pub const KB9: u8 = 0x26;
pub const KB0: u8 = 0x27;
pub const ENTER: u8 = 0x28;
pub const ESCAPE: u8 = 0x29;
pub const BSPACE: u8 = 0x2A;
pub const TAB: u8 = 0x2B;
pub const SPACE: u8 = 0x2C;
pub const MINUS: u8 = 0x2D;
pub const EQUAL: u8 = 0x2E;
pub const LBRACKET: u8 = 0x2F;
pub const RBRACKET: u8 = 0x30;
pub const BSLASH: u8 = 0x31;
pub const SEMICOLON: u8 = 0x33;
pub const QUOTE: u8 = 0x34;
pub const GRAVE: u8 = 0x35;
pub const COMMA: u8 = 0x36;
pub const DOT: u8 = 0x37;
pub const SLASH: u8 = 0x38;
pub const F1: u8 = 0x3A;
pub const F2: u8 = 0x3B;
pub const F3: u8 = 0x3C;
pub const F4: u8 = 0x3D;
pub const F5: u8 = 0x3E;
pub const F6: u8 = 0x3F;
pub const F7: u8 = 0x40;
pub const F8: u8 = 0x41;
pub const F9: u8 = 0x42;
pub const F10: u8 = 0x43;
pub const F11: u8 = 0x44;
pub const F12: u8 = 0x45;
pub const INSERT: u8 = 0x49;
pub const HOME: u8 = 0x4A;
pub const PGUP: u8 = 0x4B;
pub const DELETE: u8 = 0x4C;
pub const END: u8 = 0x4D;
pub const PGDOWN: u8 = 0x4E;
pub const RIGHT: u8 = 0x4F;
pub const LEFT: u8 = 0x50;
pub const DOWN: u8 = 0x51;
pub const UP: u8 = 0x52;
pub const MUTE: u8 = 0x7F;
pub const VOLUP: u8 = 0x80;
pub const VOLDOWN: u8 = 0x81;
pub const LCTRL: u8 = 0xE0;
pub const LSHIFT: u8 = 0xE1;
pub const LALT: u8 = 0xE2;
pub const LGUI: u8 = 0xE3;
pub const RCTRL: u8 = 0xE4;
pub const RSHIFT: u8 = 0xE5;
pub const RALT: u8 = 0xE6;

} // verus!
