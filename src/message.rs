use vstd::prelude::*;

use crate::keymap::Layer;
use crate::leds::Action;
use crate::menu::{MenuAction, SecondaryMenuAction};

verus! {

/// The page shown on a board's display.
#[derive(Copy, Clone, Debug, PartialEq, Eq, Structural)]
pub enum DisplayedState {
    Info,
    Menu,
    Bongo,
    Leds,
}

impl Default for DisplayedState {
    fn default() -> (r: Self)
        ensures
            r == DisplayedState::Info,
    {
        DisplayedState::Info
    }
}

/// Which half of the keyboard a board is.
#[derive(Copy, Clone, Debug, PartialEq, Eq, Structural)]
pub enum Hand {
    Left,
    Right,
}

/// A key of the matrix going down or up, by row and column.
#[derive(Copy, Clone, Debug, PartialEq, Eq, Structural)]
pub enum Event {
    Press(u8, u8),
    Release(u8, u8),
}

/// The last column of the matrix; the other half's columns are mirrored
/// about it.
pub const LAST_COL: u8 = 13;

/// The key coordinates in a message are on the matrix.
pub open spec fn in_matrix(m: Message) -> bool {
    match m {
        Message::MatrixKeyPress(_, j) | Message::MatrixKeyRelease(_, j) => j <= LAST_COL,
        _ => true,
    }
}

/// Everything the parts of the firmware tell each other.
#[derive(Copy, Clone, Debug, PartialEq, Eq, Structural)]
pub enum Message {
    LateInit,
    InitTimers,
    UsbConnected(bool),
    YouArePrimary,
    YouAreSecondary,
    UpdateDisplay,
    Tick,
    MatrixKeyPress(u8, u8),
    MatrixKeyRelease(u8, u8),
    SecondaryKeyPress(u8, u8),
    SecondaryKeyRelease(u8, u8),
    Ping,
    Pong,
    CmdHeld,
    CmdReleased,
    CtrlHeld,
    CtrlReleased,
    CurrentLayer(Layer),
    SecondaryCurrentLayer(Layer),
    DisplaySelect(DisplayedState),
    SecondaryDisplaySelect(DisplayedState),
    Menu(MenuAction),
    SecondaryMenu(SecondaryMenuAction),
    SetDefaultLayer(usize),
    Bongo,
    LED(Action),
    SecondaryLED(Action),
    Sleep,
    Wake,
}

/// A message that is handled on this board, or one that goes to the other.
#[derive(Copy, Clone, Debug, PartialEq, Eq, Structural)]
pub enum MessageType {
    Local(Message),
    Remote(Message),
}

/// The messages that are mirrored to the other board over the serial link.
pub open spec fn is_remote(m: Message) -> bool {
    match m {
        Message::YouAreSecondary
        | Message::SecondaryKeyPress(_, _)
        | Message::SecondaryKeyRelease(_, _)
        | Message::SecondaryDisplaySelect(_)
        | Message::SecondaryCurrentLayer(_)
        | Message::SecondaryLED(_)
        | Message::SecondaryMenu(_)
        | Message::Bongo
        | Message::Pong => true,
        _ => false,
    }
}

impl Message {
    /// Tags the message with where it goes: every message is either local
    /// or remote, never both.
    pub fn to_type(self) -> (r: MessageType)
        ensures
            is_remote(self) ==> r == MessageType::Remote(self),
            !is_remote(self) ==> r == MessageType::Local(self),
    {
        match self {
            Message::YouAreSecondary
            | Message::SecondaryKeyPress(_, _)
            | Message::SecondaryKeyRelease(_, _)
            | Message::SecondaryDisplaySelect(_)
            | Message::SecondaryCurrentLayer(_)
            | Message::SecondaryLED(_)
            | Message::SecondaryMenu(_)
            | Message::Bongo
            | Message::Pong => MessageType::Remote(self),
            _ => MessageType::Local(self),
        }
    }
}

} // verus!
