use vstd::prelude::*;

use heapless::spsc::Queue;

use crate::keymap::{Layer, layer_of};
use crate::media_keys::{MediaKey, MediaKeyHidReport, usage};
use crate::menu::MenuAction;
use crate::message::{DisplayedState, Message};
use crate::multi::Multi;

verus! {

#[verifier::external_type_specification]
#[verifier::external_body]
#[verifier::reject_recursive_types(Item)]
pub struct ExQueue<Item, const CAP: usize>(Queue<Item, CAP>);

/// The items in a queue of media-key usages, oldest first.
pub uninterp spec fn queued(q: Queue<u16, 9>) -> Seq<u16>;

/// The number of reports the media-key queue holds.
pub const MEDIA_QUEUE_CAPACITY: usize = 8;

/// Relies on heapless::spsc::Queue::new: a new queue is empty.
#[verifier::external_body]
fn new_queue() -> (r: Queue<u16, 9>)
    ensures
        queued(r).len() == 0,
{
    Queue::new()
}

/// Relies on heapless::spsc::Queue::enqueue: the item goes at the back,
/// unless the queue already holds N - 1 = 8 items; then it is handed back
/// and the queue is unchanged.
#[verifier::external_body]
fn enqueue(q: &mut Queue<u16, 9>, v: u16) -> (r: Result<(), u16>)
    ensures
        queued(*old(q)).len() < 8 ==> r is Ok && queued(*final(q)) == queued(*old(q)).push(v),
        queued(*old(q)).len() >= 8 ==> (r matches Err(e) && e == v) && queued(*final(q)) == queued(*old(q)),
{
    q.enqueue(v)
}

/// Relies on heapless::spsc::Queue::dequeue: the oldest item leaves the
/// queue; an empty queue gives `None`.
#[verifier::external_body]
fn dequeue(q: &mut Queue<u16, 9>) -> (r: Option<u16>)
    ensures
        queued(*old(q)).len() == 0 ==> r is None && queued(*final(q)) == queued(*old(q)),
        queued(*old(q)).len() > 0 ==> r == Some(queued(*old(q))[0]) && queued(*final(q))
            == queued(*old(q)).drop_first(),
{
    q.dequeue()
}

/// The actions of the key map beyond plain key codes.
#[derive(Copy, Clone, Debug, PartialEq, Eq, Structural)]
pub enum PkbAction {
    MediaKey(MediaKey),
    MenuOpen,
    MenuClose,
    MenuUp,
    MenuDown,
    MenuSelect,
    MenuLeft,
    MenuRight,
    HoldCmd,
    ReleaseCmd,
    HoldCtrl,
    ReleaseCtrl,
}

/// What a tick of the layout reports of the custom actions.
#[derive(Copy, Clone, Debug, PartialEq, Eq, Structural)]
pub enum CustomEvent {
    NoEvent,
    Press(PkbAction),
    Release(PkbAction),
}

/// The state kept for custom actions: the held modifiers, the layer last
/// shown, the board's role and the media-key reports waiting to be sent.
pub struct CustomActionState {
    pub hold_cmd: bool,
    pub hold_ctrl: bool,
    pub current_layer: usize,
    pub is_primary: bool,
    pub mk_reports: Queue<u16, 9>,
}

/// The queue after offering it `u`: full queues drop the new report.
pub open spec fn offered(q: Seq<u16>, u: u16) -> Seq<u16> {
    if q.len() < MEDIA_QUEUE_CAPACITY {
        q.push(u)
    } else {
        q
    }
}

/// The message that a custom event turns into, if any.
pub open spec fn custom_message(is_primary: bool, e: CustomEvent) -> Seq<Message> {
    match e {
        CustomEvent::Press(PkbAction::HoldCmd) => seq![Message::CmdHeld],
        CustomEvent::Release(PkbAction::ReleaseCmd) => seq![Message::CmdReleased],
        CustomEvent::Press(PkbAction::HoldCtrl) => seq![Message::CtrlHeld],
        CustomEvent::Release(PkbAction::ReleaseCtrl) => seq![Message::CtrlReleased],
        CustomEvent::Release(PkbAction::MenuOpen) => if is_primary {
            seq![Message::DisplaySelect(DisplayedState::Menu)]
        } else {
            seq![]
        },
        CustomEvent::Release(PkbAction::MenuUp) => seq![Message::Menu(MenuAction::Up)],
        CustomEvent::Release(PkbAction::MenuDown) => seq![Message::Menu(MenuAction::Down)],
        CustomEvent::Release(PkbAction::MenuSelect) => seq![Message::Menu(MenuAction::Select)],
        CustomEvent::Release(PkbAction::MenuClose) => seq![Message::Menu(MenuAction::Close)],
        CustomEvent::Release(PkbAction::MenuLeft) => seq![Message::Menu(MenuAction::Left)],
        CustomEvent::Release(PkbAction::MenuRight) => seq![Message::Menu(MenuAction::Right)],
        _ => seq![],
    }
}

/// Handling the custom event `e` takes `c` to `n`: media keys queue their
/// report (a release queues the empty report), and the modifier actions
/// set or clear their flag.
pub open spec fn processed(c: CustomActionState, e: CustomEvent, n: CustomActionState) -> bool {
    &&& n.is_primary == c.is_primary
    &&& n.current_layer == c.current_layer
    &&& queued(n.mk_reports) == match e {
        CustomEvent::Press(PkbAction::MediaKey(k)) => offered(queued(c.mk_reports), usage(k)),
        CustomEvent::Release(PkbAction::MediaKey(_)) => offered(queued(c.mk_reports), 0),
        _ => queued(c.mk_reports),
    }
    &&& n.hold_cmd == match e {
        CustomEvent::Press(PkbAction::HoldCmd) => true,
        CustomEvent::Release(PkbAction::ReleaseCmd) => false,
        _ => c.hold_cmd,
    }
    &&& n.hold_ctrl == match e {
        CustomEvent::Press(PkbAction::HoldCtrl) => true,
        CustomEvent::Release(PkbAction::ReleaseCtrl) => false,
        _ => c.hold_ctrl,
    }
}

/// The message that reports the active layer `new_layer`: only on the
/// primary board, and only when it changed.
pub open spec fn layer_messages(c: CustomActionState, new_layer: usize) -> Seq<Message> {
    if c.is_primary && c.current_layer != new_layer {
        seq![Message::CurrentLayer(layer_of(new_layer))]
    } else {
        seq![]
    }
}

/// Checking the active layer `new_layer` takes `c` to `n`: the primary
/// board remembers it.
pub open spec fn layer_checked(c: CustomActionState, new_layer: usize, n: CustomActionState) -> bool {
    &&& n.current_layer == if c.is_primary {
        new_layer
    } else {
        c.current_layer
    }
    &&& n.hold_cmd == c.hold_cmd
    &&& n.hold_ctrl == c.hold_ctrl
    &&& n.is_primary == c.is_primary
    &&& n.mk_reports == c.mk_reports
}

impl CustomActionState {
    pub open spec fn wf(&self) -> bool {
        queued(self.mk_reports).len() <= MEDIA_QUEUE_CAPACITY
    }

    pub fn new() -> (r: Self)
        ensures
            r.wf(),
            !r.hold_cmd,
            !r.hold_ctrl,
            r.current_layer == 0,
            !r.is_primary,
            queued(r.mk_reports).len() == 0,
    {
        CustomActionState {
            hold_cmd: false,
            hold_ctrl: false,
            current_layer: 0,
            is_primary: false,
            mk_reports: new_queue(),
        }
    }

    /// Marks this board as the one the host sees.
    pub fn is_primary(&mut self)
        ensures
            final(self).is_primary,
            final(self).hold_cmd == old(self).hold_cmd,
            final(self).hold_ctrl == old(self).hold_ctrl,
            final(self).current_layer == old(self).current_layer,
            final(self).mk_reports == old(self).mk_reports,
    {
        self.is_primary = true;
    }

    /// Handles a custom event: media keys queue their report (a release
    /// queues the empty report), the modifier actions set or clear their
    /// flag, and the menu actions become menu messages.
    pub fn process(&mut self, event: CustomEvent) -> (r: Multi<Message>)
        requires
            old(self).wf(),
        ensures
            final(self).wf(),
            r@ == custom_message(old(self).is_primary, event),
            processed(*old(self), event, *final(self)),
    {
        match event {
            CustomEvent::Press(PkbAction::MediaKey(mk)) => {
                let _ = enqueue(&mut self.mk_reports, mk.usage());
                Multi::Zero
            },
            CustomEvent::Release(PkbAction::MediaKey(_)) => {
                let _ = enqueue(&mut self.mk_reports, 0);
                Multi::Zero
            },
            CustomEvent::Press(PkbAction::HoldCmd) => {
                self.hold_cmd = true;
                Multi::One(Message::CmdHeld)
            },
            CustomEvent::Release(PkbAction::ReleaseCmd) => {
                self.hold_cmd = false;
                Multi::One(Message::CmdReleased)
            },
            CustomEvent::Press(PkbAction::HoldCtrl) => {
                self.hold_ctrl = true;
                Multi::One(Message::CtrlHeld)
            },
            CustomEvent::Release(PkbAction::ReleaseCtrl) => {
                self.hold_ctrl = false;
                Multi::One(Message::CtrlReleased)
            },
            CustomEvent::Release(PkbAction::MenuOpen) => {
                if self.is_primary {
                    Multi::One(Message::DisplaySelect(DisplayedState::Menu))
                } else {
                    Multi::Zero
                }
            },
            CustomEvent::Release(PkbAction::MenuUp) => Multi::One(Message::Menu(MenuAction::Up)),
            CustomEvent::Release(PkbAction::MenuDown) => Multi::One(
                Message::Menu(MenuAction::Down),
            ),
            CustomEvent::Release(PkbAction::MenuSelect) => Multi::One(
                Message::Menu(MenuAction::Select),
            ),
            CustomEvent::Release(PkbAction::MenuClose) => Multi::One(
                Message::Menu(MenuAction::Close),
            ),
            CustomEvent::Release(PkbAction::MenuLeft) => Multi::One(
                Message::Menu(MenuAction::Left),
            ),
            CustomEvent::Release(PkbAction::MenuRight) => Multi::One(
                Message::Menu(MenuAction::Right),
            ),
            _ => Multi::Zero,
        }
    }

    /// The oldest media-key report waiting to be sent.
    pub fn get_mk_report(&mut self) -> (r: Option<MediaKeyHidReport>)
        requires
            old(self).wf(),
        ensures
            final(self).wf(),
            queued(old(self).mk_reports).len() == 0 ==> r is None && queued(final(self).mk_reports)
                == queued(old(self).mk_reports),
            queued(old(self).mk_reports).len() > 0 ==> r == Some(
                MediaKeyHidReport::of_usage(queued(old(self).mk_reports)[0]),
            ) && queued(final(self).mk_reports) == queued(old(self).mk_reports).drop_first(),
            final(self).hold_cmd == old(self).hold_cmd,
            final(self).hold_ctrl == old(self).hold_ctrl,
            final(self).is_primary == old(self).is_primary,
            final(self).current_layer == old(self).current_layer,
    {
        match dequeue(&mut self.mk_reports) {
            Some(u) => Some(MediaKeyHidReport::from_usage(u)),
            None => None,
        }
    }

    /// On the primary board, reports a change of the active layer.
    pub fn check_layout_for_events(&mut self, new_layer: usize) -> (r: Multi<Message>)
        ensures
            r@ == layer_messages(*old(self), new_layer),
            layer_checked(*old(self), new_layer, *final(self)),
    {
        if self.is_primary {
            if self.current_layer != new_layer {
                self.current_layer = new_layer;
                Multi::One(Message::CurrentLayer(Layer::from(new_layer)))
            } else {
                Multi::Zero
            }
        } else {
            Multi::Zero
        }
    }

    /// Adds the held modifiers to a keyboard report: command is the left
    /// GUI key (bit 3 of the modifier byte), control the left control key
    /// (bit 0).
    pub fn modify_kb_report(&self, report: &mut KbHidReport)
        ensures
            final(report).keys == old(report).keys,
            final(report).modifiers == (old(report).modifiers | (if self.hold_cmd {
                8u8
            } else {
                0u8
            }) | (if self.hold_ctrl {
                1u8
            } else {
                0u8
            })),
    {
        if self.hold_cmd {
            report.modifiers = report.modifiers | 8;
        }
        if self.hold_ctrl {
            report.modifiers = report.modifiers | 1;
        }
        proof {
            assert(forall|x: u8| #[trigger] (x | 0u8) == x) by (bit_vector);
        }
    }
}

/// A keyboard report: the modifier bits and up to six key codes.
#[derive(Copy, Clone, Debug)]
pub struct KbHidReport {
    pub modifiers: u8,
    pub keys: [u8; 6],
}

} // verus!
