//! Control logic of a split mechanical keyboard: the message bus shared by
//! the two halves, the menu and LED state machines, the key layout
//! resolver, the serial link codec and the rotary encoder debouncer.

pub mod board;
pub mod custom_action;
pub mod dispatcher;
pub mod info;
pub mod key_code;
pub mod keymap;
pub mod layout;
pub mod leds;
pub mod media_keys;
pub mod menu;
pub mod message;
pub mod multi;
pub mod pages;
pub mod rotary;
pub mod serial;
pub mod varint;
pub mod ws2812;
