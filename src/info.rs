use vstd::prelude::*;

use crate::keymap::Layer;
use crate::message::{Event, Hand, LAST_COL, Message, in_matrix};
use crate::multi::Multi;

verus! {

/// After this many display ticks without a key press the board sleeps
/// (three minutes at 24 ticks a second).
pub const SLEEP_AFTER: u32 = 4320;

/// The state shown on the info page, and the idle counter.
pub struct Info {
    pub usb_connected: bool,
    pub hand: Option<Hand>,
    pub last_matrix: Option<Event>,
    pub cmd_held: bool,
    pub ctrl_held: bool,
    pub current_layer: Layer,
    pub ticks_since_press: u32,
}

/// The idle counter after one more tick.
pub open spec fn ticked(t: u32) -> u32 {
    if t < u32::MAX {
        (t + 1) as u32
    } else {
        t
    }
}

/// The reaction of `s` to `msg`: it becomes `n` and sends `out`.
pub open spec fn info_step(s: Info, msg: Message, n: Info, out: Seq<Message>) -> bool {
    match msg {
        Message::YouArePrimary => n == (Info { hand: Some(Hand::Left), ..s }) && out.len() == 0,
        Message::YouAreSecondary => n == (Info { hand: Some(Hand::Right), ..s }) && out.len() == 0,
        Message::UsbConnected(c) => n == (Info { usb_connected: c, ..s }) && out.len() == 0,
        Message::MatrixKeyPress(i, j) => {
            let wake: Seq<Message> = if s.ticks_since_press > SLEEP_AFTER {
                seq![Message::Wake]
            } else {
                seq![]
            };
            let forward: Seq<Message> = if !s.usb_connected {
                seq![Message::SecondaryKeyPress(i, (LAST_COL - j) as u8)]
            } else {
                seq![]
            };
            &&& n == (Info {
                last_matrix: Some(Event::Press(i, j)),
                ticks_since_press: 0,
                ..s
            })
            &&& out == wake + forward
        },
        Message::MatrixKeyRelease(i, j) => {
            &&& n == (Info { last_matrix: Some(Event::Release(i, j)), ..s })
            &&& out == if !s.usb_connected {
                seq![Message::SecondaryKeyRelease(i, (LAST_COL - j) as u8)]
            } else {
                seq![]
            }
        },
        Message::CurrentLayer(l) => n == (Info { current_layer: l, ..s }) && out == seq![
            Message::SecondaryCurrentLayer(l),
        ],
        Message::SecondaryCurrentLayer(l) => n == (Info { current_layer: l, ..s }) && out.len()
            == 0,
        Message::CmdHeld => n == (Info { cmd_held: true, ..s }) && out.len() == 0,
        Message::CmdReleased => n == (Info { cmd_held: false, ..s }) && out.len() == 0,
        Message::CtrlHeld => n == (Info { ctrl_held: true, ..s }) && out.len() == 0,
        Message::CtrlReleased => n == (Info { ctrl_held: false, ..s }) && out.len() == 0,
        Message::Ping => n == s && out == seq![Message::Pong],
        Message::UpdateDisplay => {
            &&& n == (Info { ticks_since_press: ticked(s.ticks_since_press), ..s })
            &&& out == if ticked(s.ticks_since_press) > SLEEP_AFTER {
                seq![Message::Sleep]
            } else {
                seq![]
            }
        },
        _ => n == s && out.len() == 0,
    }
}


impl Info {
    pub fn new() -> (r: Info)
        ensures
            !r.usb_connected,
            r.hand is None,
            r.last_matrix is None,
            !r.cmd_held,
            !r.ctrl_held,
            r.current_layer == Layer::Default,
            r.ticks_since_press == 0,
    {
        Info {
            usb_connected: false,
            hand: None,
            last_matrix: None,
            cmd_held: false,
            ctrl_held: false,
            current_layer: Layer::Default,
            ticks_since_press: 0,
        }
    }

    fn tick(&mut self) -> (r: Multi<Message>)
        ensures
            *final(self) == (Info { ticks_since_press: ticked(old(self).ticks_since_press), ..*old(self) }),
            r@ == if ticked(old(self).ticks_since_press) > SLEEP_AFTER {
                seq![Message::Sleep]
            } else {
                Seq::<Message>::empty()
            },
    {
        self.ticks_since_press = self.ticks_since_press.saturating_add(1);
        if self.ticks_since_press > SLEEP_AFTER {
            Multi::One(Message::Sleep)
        } else {
            Multi::Zero
        }
    }

    fn press(&mut self) -> (r: Multi<Message>)
        ensures
            *final(self) == (Info { ticks_since_press: 0, ..*old(self) }),
            r@ == if old(self).ticks_since_press > SLEEP_AFTER {
                seq![Message::Wake]
            } else {
                Seq::<Message>::empty()
            },
    {
        if self.ticks_since_press > SLEEP_AFTER {
            self.ticks_since_press = 0;
            Multi::One(Message::Wake)
        } else {
            self.ticks_since_press = 0;
            Multi::Zero
        }
    }

    /// Reacts to one message. A board without USB forwards its key events to
    /// the other board, with the column mirrored.
    pub fn handle_event(&mut self, message: Message) -> (r: Multi<Message>)
        requires
            in_matrix(message),
        ensures
            info_step(*old(self), message, *final(self), r@),
    {
        match message {
            Message::YouArePrimary => {
                self.hand = Some(Hand::Left);
                Multi::Zero
            },
            Message::YouAreSecondary => {
                self.hand = Some(Hand::Right);
                Multi::Zero
            },
            Message::UsbConnected(is_connected) => {
                self.usb_connected = is_connected;
                Multi::Zero
            },
            Message::MatrixKeyPress(i, j) => {
                self.last_matrix = Some(Event::Press(i, j));
                let forward = if !self.usb_connected {
                    Multi::One(Message::SecondaryKeyPress(i, 13 - j))
                } else {
                    Multi::Zero
                };
                let wake = self.press();
                let r = wake.add(forward);
                proof {
                    let f: Seq<Message> = if !old(self).usb_connected {
                        seq![Message::SecondaryKeyPress(i, (13 - j) as u8)]
                    } else {
                        seq![]
                    };
                    assert(forward@ =~= f);
                }
                r
            },
            Message::MatrixKeyRelease(i, j) => {
                self.last_matrix = Some(Event::Release(i, j));
                if !self.usb_connected {
                    Multi::One(Message::SecondaryKeyRelease(i, 13 - j))
                } else {
                    Multi::Zero
                }
            },
            Message::CurrentLayer(layer) => {
                self.current_layer = layer;
                Multi::One(Message::SecondaryCurrentLayer(layer))
            },
            Message::SecondaryCurrentLayer(layer) => {
                self.current_layer = layer;
                Multi::Zero
            },
            Message::CmdHeld => {
                self.cmd_held = true;
                Multi::Zero
            },
            Message::CmdReleased => {
                self.cmd_held = false;
                Multi::Zero
            },
            Message::CtrlHeld => {
                self.ctrl_held = true;
                Multi::Zero
            },
            Message::CtrlReleased => {
                self.ctrl_held = false;
                Multi::Zero
            },
            Message::Ping => Multi::One(Message::Pong),
            Message::UpdateDisplay => self.tick(),
            _ => Multi::Zero,
        }
    }
}

} // verus!
