use vstd::prelude::*;

use crate::info::{Info, info_step};
use crate::leds::{LEDs, led_step};
use crate::menu::{Menu, menu_step};
use crate::message::{DisplayedState, Message, in_matrix};
use crate::multi::Multi;

verus! {

/// A change that the display itself must make.
#[derive(Copy, Clone, Debug, PartialEq, Eq, Structural)]
pub enum ScreenCommand {
    /// Start the panel and clear it.
    Init,
    /// Turn the picture for the left half and clear it.
    RotateLeft,
    /// Turn the picture for the right half and clear it.
    RotateRight,
}

/// The display panel's own state: whether it has been started, and the
/// commands it has still to carry out.
pub struct OLED {
    pub initd: bool,
    pub commands: Vec<ScreenCommand>,
}

/// The reaction of the panel `o` to `msg`.
pub open spec fn oled_step(o: OLED, msg: Message, n: OLED, out: Seq<Message>) -> bool {
    match msg {
        Message::LateInit => {
            &&& n.initd
            &&& n.commands@ == o.commands@.push(ScreenCommand::Init)
            &&& out == seq![Message::InitTimers]
        },
        Message::YouArePrimary => {
            &&& n.initd == o.initd
            &&& n.commands@ == o.commands@.push(ScreenCommand::RotateLeft)
            &&& out.len() == 0
        },
        Message::YouAreSecondary => {
            &&& n.initd == o.initd
            &&& n.commands@ == o.commands@.push(ScreenCommand::RotateRight)
            &&& out.len() == 0
        },
        _ => n.initd == o.initd && n.commands@ == o.commands@ && out.len() == 0,
    }
}

impl OLED {
    pub fn new() -> (r: OLED)
        ensures
            !r.initd,
            r.commands@.len() == 0,
    {
        OLED { initd: false, commands: Vec::new() }
    }

    /// Reacts to one message; starting the panel starts the timers too.
    pub fn handle_event(&mut self, message: Message) -> (r: Multi<Message>)
        ensures
            oled_step(*old(self), message, *final(self), r@),
    {
        match message {
            Message::LateInit => {
                self.commands.push(ScreenCommand::Init);
                self.initd = true;
                Multi::One(Message::InitTimers)
            },
            Message::YouArePrimary => {
                self.commands.push(ScreenCommand::RotateLeft);
                Multi::Zero
            },
            Message::YouAreSecondary => {
                self.commands.push(ScreenCommand::RotateRight);
                Multi::Zero
            },
            _ => Multi::Zero,
        }
    }

    /// Hands out the commands not yet carried out, oldest first.
    pub fn take_commands(&mut self) -> (r: Vec<ScreenCommand>)
        ensures
            r@ == old(self).commands@,
            final(self).commands@.len() == 0,
            final(self).initd == old(self).initd,
    {
        let mut out = Vec::new();
        core::mem::swap(&mut out, &mut self.commands);
        out
    }
}

/// The idle page; it keeps no state.
pub struct Bongo {}

impl Bongo {
    pub fn new() -> Bongo {
        Bongo {  }
    }

    pub fn handle_event(&mut self, _message: Message) -> (r: Multi<Message>)
        ensures
            r@.len() == 0,
    {
        Multi::Zero
    }
}

/// The message bus of one board: every message goes to each part in turn.
pub struct Dispatcher {
    pub oled: OLED,
    pub displayed_state: DisplayedState,
    pub info: Info,
    pub menu: Menu,
    pub leds: LEDs,
    pub bongo: Bongo,
}

/// The page selected after `msg`.
pub open spec fn selected_after(d: DisplayedState, msg: Message) -> DisplayedState {
    match msg {
        Message::DisplaySelect(s) => s,
        Message::SecondaryDisplaySelect(s) => s,
        _ => d,
    }
}

/// Dispatching `msg` takes `d` to `n` and gives `out`: the reactions of the
/// panel, the info page, the LEDs, the menu and the idle page, in that
/// order, one after another.
pub open spec fn dispatch_step(d: Dispatcher, msg: Message, n: Dispatcher, out: Seq<Message>) -> bool {
    exists|o1: Seq<Message>, o2: Seq<Message>, o3: Seq<Message>, o4: Seq<Message>|
        {
            &&& #[trigger] oled_step(d.oled, msg, n.oled, o1)
            &&& #[trigger] info_step(d.info, msg, n.info, o2)
            &&& #[trigger] led_step(d.leds, msg, n.leds, o3)
            &&& #[trigger] menu_step(d.menu, msg, n.menu, o4)
            &&& out == o1 + o2 + o3 + o4
        }
}

/// Appends the items of `m` to `v`, in order.
fn extend_with(v: &mut Vec<Message>, m: Multi<Message>)
    ensures
        final(v)@ == old(v)@ + m@,
{
    let mut m = m;
    let ghost start = v@;
    let ghost all = m@;
    proof {
        m.lemma_len_bound();
    }
    while m.len() > 0
        invariant
            v@ + m@ == start + all,
        decreases m@.len(),
    {
        let ghost before = m@;
        match m.take() {
            Some(x) => {
                v.push(x);
                assert(before =~= seq![x] + m@);
                assert(v@ + m@ =~= start + all);
            },
            None => {},
        }
    }
    assert(m@.len() == 0);
    assert(v@ =~= start + all);
}

impl Dispatcher {
    pub fn new(oled: OLED, leds: LEDs) -> (r: Dispatcher)
        ensures
            r.oled == oled,
            r.leds == leds,
            r.displayed_state == DisplayedState::Info,
            r.menu.wf(),
            r.menu.current_menu == 0,
            r.menu.current_item == 0,
    {
        Dispatcher {
            oled,
            displayed_state: DisplayedState::Info,
            info: Info::new(),
            menu: Menu::new(),
            leds,
            bongo: Bongo::new(),
        }
    }

    /// Hands `message` to every part and collects what they send back.
    pub fn dispatch(&mut self, message: Message) -> (r: Vec<Message>)
        requires
            old(self).menu.wf(),
            in_matrix(message),
        ensures
            final(self).menu.wf(),
            dispatch_step(*old(self), message, *final(self), r@),
            final(self).displayed_state == selected_after(old(self).displayed_state, message),
    {
        let mut out: Vec<Message> = Vec::new();
        let m1 = self.oled.handle_event(message);
        extend_with(&mut out, m1);
        let m2 = self.info.handle_event(message);
        extend_with(&mut out, m2);
        let m3 = self.leds.handle_event(message);
        extend_with(&mut out, m3);
        let m4 = self.menu.handle_event(message);
        extend_with(&mut out, m4);
        let m5 = self.bongo.handle_event(message);
        extend_with(&mut out, m5);
        match message {
            Message::DisplaySelect(d) => self.displayed_state = d,
            Message::SecondaryDisplaySelect(d) => self.displayed_state = d,
            _ => {},
        }
        proof {
            assert(out@ =~= m1@ + m2@ + m3@ + m4@);
            assert(oled_step(old(self).oled, message, self.oled, m1@));
            assert(info_step(old(self).info, message, self.info, m2@));
            assert(led_step(old(self).leds, message, self.leds, m3@));
            assert(menu_step(old(self).menu, message, self.menu, m4@));
        }
        out
    }

    /// The page to draw, once the panel has been started.
    pub fn update_display(&self) -> (r: Option<DisplayedState>)
        ensures
            r == if self.oled.initd {
                Some(self.displayed_state)
            } else {
                None
            },
    {
        if self.oled.initd {
            Some(self.displayed_state)
        } else {
            None
        }
    }
}

/// A ping always gets exactly one pong, whatever state the parts are in.
pub proof fn lemma_ping_pong(d: Dispatcher, n: Dispatcher, out: Seq<Message>)
    requires
        dispatch_step(d, Message::Ping, n, out),
    ensures
        out == seq![Message::Pong],
{
    let (o1, o2, o3, o4) = choose|o1: Seq<Message>, o2: Seq<Message>, o3: Seq<Message>, o4: Seq<Message>|
        {
            &&& #[trigger] oled_step(d.oled, Message::Ping, n.oled, o1)
            &&& #[trigger] info_step(d.info, Message::Ping, n.info, o2)
            &&& #[trigger] led_step(d.leds, Message::Ping, n.leds, o3)
            &&& #[trigger] menu_step(d.menu, Message::Ping, n.menu, o4)
            &&& out == o1 + o2 + o3 + o4
        };
    assert(out =~= seq![Message::Pong]);
}

} // verus!
