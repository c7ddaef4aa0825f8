use vstd::prelude::*;

use crate::custom_action::{
    CustomActionState,
    CustomEvent,
    KbHidReport,
    custom_message,
    layer_checked,
    layer_messages,
    processed,
    queued,
};
use crate::dispatcher::{Dispatcher, dispatch_step};
use crate::layout::{
    Layout,
    active_layer,
    built_from,
    codes_of,
    event_taken,
    report_of,
    tick_step,
};
use crate::media_keys::MediaKeyHidReport;
use crate::message::{Event, LAST_COL, Message, in_matrix, is_remote};
use crate::multi::Multi;
use crate::serial::{RxComms, TxComms, enc, rx_next};

verus! {

/// The number of messages that may wait for the dispatcher; more are
/// dropped.
pub const QUEUE_CAPACITY: usize = 30;

/// The messages of `out` that stay on this board, added to the queue `q`
/// in order while it has room.
pub open spec fn enqueue_locals(q: Seq<Message>, out: Seq<Message>) -> Seq<Message>
    decreases out.len(),
{
    if out.len() == 0 {
        q
    } else {
        let q2 = enqueue_locals(q, out.drop_last());
        let m = out.last();
        if !is_remote(m) && in_matrix(m) && q2.len() < QUEUE_CAPACITY {
            q2.push(m)
        } else {
            q2
        }
    }
}

/// The bytes of the messages of `out` that go to the other board, in order.
pub open spec fn remote_bytes(out: Seq<Message>) -> Seq<u8>
    decreases out.len(),
{
    if out.len() == 0 {
        seq![]
    } else {
        let m = out.last();
        remote_bytes(out.drop_last()) + if is_remote(m) {
            enc(m)
        } else {
            seq![]
        }
    }
}

/// What the hardware must do after a step of the board.
#[derive(Copy, Clone, Debug, PartialEq, Eq, Structural)]
pub enum Effect {
    Nothing,
    /// Start the scan and display timers.
    StartTimers,
    /// Run the late start-up after the given number of milliseconds.
    ScheduleLateInit(u32),
}

/// One half of the keyboard: the message bus, the key layout, the custom
/// actions, the serial link, and the queue of messages waiting to be
/// dispatched. The hardware around it hands it events and carries out what
/// it asks.
pub struct Board {
    pub dispatcher: Dispatcher,
    pub layout: Layout,
    pub custom: CustomActionState,
    pub tx: TxComms,
    pub rx: RxComms,
    /// Whether the late start-up has been scheduled.
    pub initd: bool,
    /// Whether the timers have been started.
    pub timer_init: bool,
    /// Messages waiting to be dispatched, oldest first.
    pub queue: Vec<Message>,
    /// Bytes waiting to be written to the serial link.
    pub outgoing: Vec<u8>,
}

pub fn is_in_matrix(m: Message) -> (r: bool)
    ensures
        r == in_matrix(m),
{
    match m {
        Message::MatrixKeyPress(_, j) | Message::MatrixKeyRelease(_, j) => j <= LAST_COL,
        _ => true,
    }
}

/// Appends `bytes` to `out`.
fn push_all(out: &mut Vec<u8>, bytes: &Vec<u8>)
    ensures
        final(out)@ == old(out)@ + bytes@,
{
    let mut k: usize = 0;
    while k < bytes.len()
        invariant
            k <= bytes@.len(),
            out@ == old(out)@ + bytes@.subrange(0, k as int),
        decreases bytes@.len() - k,
    {
        out.push(bytes[k]);
        k += 1;
        assert(out@ =~= old(out)@ + bytes@.subrange(0, k as int));
    }
    assert(bytes@.subrange(0, bytes@.len() as int) =~= bytes@);
}

/// The message that tells the dispatcher of a key event of this board.
pub open spec fn matrix_message(e: Event) -> Message {
    match e {
        Event::Press(i, j) => Message::MatrixKeyPress(i, j),
        Event::Release(i, j) => Message::MatrixKeyRelease(i, j),
    }
}

/// The queue `q` after offering it `m`: a full queue, or a key off the
/// matrix, leaves it as it is.
pub open spec fn spawned(q: Seq<Message>, m: Message) -> Seq<Message> {
    if in_matrix(m) && q.len() < QUEUE_CAPACITY {
        q.push(m)
    } else {
        q
    }
}

/// The queue `q` after offering it the messages `ms` in order.
pub open spec fn spawned_all(q: Seq<Message>, ms: Seq<Message>) -> Seq<Message>
    decreases ms.len(),
{
    if ms.len() == 0 {
        q
    } else {
        spawned_all(spawned(q, ms[0]), ms.drop_first())
    }
}

/// The default layer after the replies `out` are carried out from `d`: the
/// last `SetDefaultLayer` among them wins.
pub open spec fn default_after(d: usize, out: Seq<Message>) -> usize
    decreases out.len(),
{
    if out.len() == 0 {
        d
    } else {
        match out.last() {
            Message::SetDefaultLayer(i) => i,
            _ => default_after(d, out.drop_last()),
        }
    }
}

/// The message `m` from the other half, a key event `e` of it, takes the
/// board `b` to `n`: `m` is queued, the layout takes `e` and is ticked, and
/// the custom messages of that tick are queued after `m`.
pub open spec fn other_half_key(b: Board, e: Event, m: Message, n: Board) -> bool {
    exists|l: Layout, r: CustomEvent, ev: CustomEvent|
        {
            &&& #[trigger] event_taken(b.layout, e, l, r)
            &&& #[trigger] tick_step(l, n.layout, ev)
            &&& processed(b.custom, ev, n.custom)
            &&& n.queue@ == spawned_all(
                spawned(b.queue@, m),
                custom_message(b.custom.is_primary, ev),
            )
        }
}

/// After start-up, the byte `byte` from the serial link takes `b` to `n`.
pub open spec fn received(b: Board, byte: u8, n: Board) -> bool {
    let (got, buf) = rx_next(b.rx.buffer@, byte);
    &&& n.rx.buffer@ == buf
    &&& n.dispatcher == b.dispatcher
    &&& n.outgoing == b.outgoing
    &&& n.initd == b.initd
    &&& n.timer_init == b.timer_init
    &&& match got {
        None => n.queue == b.queue && n.layout == b.layout && n.custom == b.custom,
        Some(m) => match m {
            Message::SecondaryKeyPress(i, j) => other_half_key(b, Event::Press(i, j), m, n),
            Message::SecondaryKeyRelease(i, j) => other_half_key(b, Event::Release(i, j), m, n),
            _ => n.queue@ == spawned(b.queue@, m) && n.layout == b.layout && n.custom == b.custom,
        },
    }
}

impl Board {
    pub open spec fn wf(&self) -> bool {
        &&& self.dispatcher.menu.wf()
        &&& self.layout.wf()
        &&& self.custom.wf()
        &&& self.rx.wf()
        &&& self.queue@.len() <= QUEUE_CAPACITY
        &&& forall|k: int| 0 <= k < self.queue@.len() ==> in_matrix(#[trigger] self.queue@[k])
    }

    pub fn new(dispatcher: Dispatcher, layout: Layout, tx: TxComms, rx: RxComms) -> (r: Board)
        requires
            dispatcher.menu.wf(),
            layout.wf(),
            rx.wf(),
        ensures
            r.wf(),
            r.queue@.len() == 0,
            r.outgoing@.len() == 0,
            !r.initd,
            !r.timer_init,
            !r.custom.is_primary,
    {
        Board {
            dispatcher,
            layout,
            custom: CustomActionState::new(),
            tx,
            rx,
            initd: false,
            timer_init: false,
            queue: Vec::new(),
            outgoing: Vec::new(),
        }
    }

    /// Queues `m` for the dispatcher, unless the queue is full or the
    /// message names a key off the matrix.
    pub fn spawn(&mut self, m: Message)
        requires
            old(self).wf(),
        ensures
            final(self).wf(),
            final(self).queue@ == spawned(old(self).queue@, m),
            final(self).dispatcher == old(self).dispatcher,
            final(self).layout == old(self).layout,
            final(self).custom == old(self).custom,
            final(self).rx == old(self).rx,
            final(self).outgoing == old(self).outgoing,
            final(self).initd == old(self).initd,
            final(self).timer_init == old(self).timer_init,
    {
        if is_in_matrix(m) && self.queue.len() < QUEUE_CAPACITY {
            self.queue.push(m);
        }
    }

    fn spawn_all(&mut self, all: Multi<Message>)
        requires
            old(self).wf(),
        ensures
            final(self).wf(),
            final(self).queue@ == spawned_all(old(self).queue@, all@),
            final(self).dispatcher == old(self).dispatcher,
            final(self).layout == old(self).layout,
            final(self).custom == old(self).custom,
            final(self).rx == old(self).rx,
            final(self).outgoing == old(self).outgoing,
            final(self).initd == old(self).initd,
            final(self).timer_init == old(self).timer_init,
    {
        let mut ms = all;
        while ms.len() > 0
            invariant
                self.wf(),
                spawned_all(self.queue@, ms@) == spawned_all(old(self).queue@, all@),
                self.dispatcher == old(self).dispatcher,
                self.layout == old(self).layout,
                self.custom == old(self).custom,
                self.rx == old(self).rx,
                self.outgoing == old(self).outgoing,
                self.initd == old(self).initd,
                self.timer_init == old(self).timer_init,
            decreases ms@.len(),
        {
            match ms.take() {
                Some(m) => self.spawn(m),
                None => {},
            }
        }
        assert(ms@.len() == 0);
    }

    /// The start-up that follows the first sign of life: the board with a
    /// configured USB connection is the primary (left) half, the other the
    /// secondary (right) half.
    pub fn late_init(&mut self, usb_configured: bool)
        requires
            old(self).wf(),
        ensures
            final(self).wf(),
            final(self).queue@ == if usb_configured {
                spawned(
                    spawned(spawned(old(self).queue@, Message::LateInit), Message::YouArePrimary),
                    Message::UsbConnected(true),
                )
            } else {
                spawned(spawned(old(self).queue@, Message::LateInit), Message::YouAreSecondary)
            },
            final(self).custom.is_primary == (old(self).custom.is_primary || usb_configured),
            final(self).custom.hold_cmd == old(self).custom.hold_cmd,
            final(self).custom.hold_ctrl == old(self).custom.hold_ctrl,
            final(self).custom.current_layer == old(self).custom.current_layer,
            final(self).custom.mk_reports == old(self).custom.mk_reports,
            final(self).dispatcher == old(self).dispatcher,
            final(self).layout == old(self).layout,
            final(self).rx == old(self).rx,
            final(self).outgoing == old(self).outgoing,
            final(self).initd == old(self).initd,
            final(self).timer_init == old(self).timer_init,
    {
        self.spawn(Message::LateInit);
        if usb_configured {
            self.spawn(Message::YouArePrimary);
            self.spawn(Message::UsbConnected(true));
            self.custom.is_primary();
        } else {
            self.spawn(Message::YouAreSecondary);
        }
    }

    /// Dispatches `message`: the replies that stay on this board are
    /// queued, the others are encoded for the serial link. Starting the
    /// timers and changing the default layer are carried out here.
    pub fn dispatch_event(&mut self, message: Message) -> (r: Effect)
        requires
            old(self).wf(),
            in_matrix(message),
        ensures
            final(self).wf(),
            exists|out: Seq<Message>|
                {
                    &&& #[trigger] dispatch_step(
                        old(self).dispatcher,
                        message,
                        final(self).dispatcher,
                        out,
                    )
                    &&& final(self).queue@ == enqueue_locals(old(self).queue@, out)
                    &&& final(self).outgoing@ == old(self).outgoing@ + remote_bytes(out)
                    &&& final(self).layout == (Layout {
                        default_layer: default_after(old(self).layout.default_layer, out),
                        ..old(self).layout
                    })
                    &&& r == if !old(self).timer_init && out.contains(Message::InitTimers) {
                        Effect::StartTimers
                    } else {
                        Effect::Nothing
                    }
                },
            final(self).custom == old(self).custom,
            final(self).rx == old(self).rx,
            final(self).initd == old(self).initd,
    {
        let out = self.dispatcher.dispatch(message);
        let ghost start_q = self.queue@;
        let ghost start_o = self.outgoing@;
        let mut effect = Effect::Nothing;
        let mut i: usize = 0;
        while i < out.len()
            invariant
                self.wf(),
                i <= out@.len(),
                dispatch_step(old(self).dispatcher, message, self.dispatcher, out@),
                self.queue@ == enqueue_locals(start_q, out@.subrange(0, i as int)),
                self.outgoing@ == start_o + remote_bytes(out@.subrange(0, i as int)),
                effect == if !old(self).timer_init && out@.subrange(0, i as int).contains(
                    Message::InitTimers,
                ) {
                    Effect::StartTimers
                } else {
                    Effect::Nothing
                },
                self.timer_init == (old(self).timer_init || out@.subrange(0, i as int).contains(
                    Message::InitTimers,
                )),
                start_q == old(self).queue@,
                start_o == old(self).outgoing@,
                self.layout == (Layout {
                    default_layer: default_after(
                        old(self).layout.default_layer,
                        out@.subrange(0, i as int),
                    ),
                    ..old(self).layout
                }),
                self.custom == old(self).custom,
                self.rx == old(self).rx,
                self.initd == old(self).initd,
            decreases out@.len() - i,
        {
            let m = out[i];
            let ghost prefix = out@.subrange(0, i as int);
            let ghost next = out@.subrange(0, i + 1);
            proof {
                assert(next.drop_last() =~= prefix);
                assert(next.last() == m);
            }
            match m.to_type() {
                crate::message::MessageType::Local(m) => {
                    self.spawn(m);
                    match m {
                        Message::InitTimers => {
                            if !self.timer_init {
                                self.timer_init = true;
                                effect = Effect::StartTimers;
                            }
                        },
                        Message::SetDefaultLayer(l) => self.layout.set_default_layer(l),
                        _ => {},
                    }
                },
                crate::message::MessageType::Remote(m) => {
                    let bytes = self.tx.send_event(m);
                    push_all(&mut self.outgoing, &bytes);
                },
            }
            proof {
                assert(next.contains(Message::InitTimers) == (prefix.contains(Message::InitTimers)
                    || m == Message::InitTimers)) by {
                    if m == Message::InitTimers {
                        assert(next[i as int] == m);
                    }
                    if prefix.contains(Message::InitTimers) {
                        let w = choose|w: int| 0 <= w < prefix.len() && prefix[w] == Message::InitTimers;
                        assert(next[w] == Message::InitTimers);
                    }
                    if next.contains(Message::InitTimers) {
                        let w = choose|w: int| 0 <= w < next.len() && next[w] == Message::InitTimers;
                        if w < i {
                            assert(prefix[w] == Message::InitTimers);
                        }
                    }
                }
                assert(self.outgoing@ =~= start_o + remote_bytes(next));
            }
            i += 1;
        }
        proof {
            assert(out@.subrange(0, out@.len() as int) =~= out@);
        }
        effect
    }

    /// Takes a key event of this board's matrix (or its encoder): the layout
    /// sees it, and the dispatcher is told.
    pub fn key_event(&mut self, e: Event)
        requires
            old(self).wf(),
        ensures
            final(self).wf(),
            final(self).queue@ == spawned(old(self).queue@, matrix_message(e)),
            exists|r: CustomEvent| #[trigger] event_taken(old(self).layout, e, final(self).layout, r),
            final(self).dispatcher == old(self).dispatcher,
            final(self).custom == old(self).custom,
            final(self).rx == old(self).rx,
            final(self).outgoing == old(self).outgoing,
            final(self).initd == old(self).initd,
            final(self).timer_init == old(self).timer_init,
    {
        let _ = self.layout.event(e);
        match e {
            Event::Press(i, j) => self.spawn(Message::MatrixKeyPress(i, j)),
            Event::Release(i, j) => self.spawn(Message::MatrixKeyRelease(i, j)),
        }
    }

    /// One scan tick: the layout moves on, its custom event is handled, and
    /// a change of layer is reported; the messages are queued in that order.
    pub fn scan_tick(&mut self)
        requires
            old(self).wf(),
        ensures
            final(self).wf(),
            exists|ev: CustomEvent, c: CustomActionState|
                {
                    &&& tick_step(old(self).layout, final(self).layout, ev)
                    &&& #[trigger] processed(old(self).custom, ev, c)
                    &&& layer_checked(c, active_layer(final(self).layout) as usize, final(self).custom)
                    &&& final(self).queue@ == spawned_all(
                        spawned_all(old(self).queue@, custom_message(old(self).custom.is_primary, ev)),
                        layer_messages(c, active_layer(final(self).layout) as usize),
                    )
                },
            final(self).dispatcher == old(self).dispatcher,
            final(self).rx == old(self).rx,
            final(self).outgoing == old(self).outgoing,
            final(self).initd == old(self).initd,
            final(self).timer_init == old(self).timer_init,
    {
        let ev = self.layout.tick();
        let ms = self.custom.process(ev);
        let ghost c = self.custom;
        self.spawn_all(ms);
        let layer = self.layout.current_layer();
        let ms = self.custom.check_layout_for_events(layer);
        self.spawn_all(ms);
        assert(processed(old(self).custom, ev, c));
    }

    /// Takes a byte from the serial link. The first byte only schedules the
    /// start-up; after that, a complete message is queued, and a key event
    /// of the other half also goes through this board's layout, which is
    /// ticked, its custom messages queued after it.
    pub fn serial_byte(&mut self, byte: u8) -> (r: Effect)
        requires
            old(self).wf(),
        ensures
            final(self).wf(),
            !old(self).initd ==> r == Effect::ScheduleLateInit(4000) && *final(self) == (Board {
                initd: true,
                ..*old(self)
            }),
            old(self).initd ==> r == Effect::Nothing && received(*old(self), byte, *final(self)),
    {
        if !self.initd {
            self.initd = true;
            return Effect::ScheduleLateInit(4000);
        }
        let got = self.rx.read_event(byte);
        match got {
            Some(message) => {
                self.spawn(message);
                match message {
                    Message::SecondaryKeyPress(i, j) => {
                        let _ = self.layout.event(Event::Press(i, j));
                        let ghost l1 = self.layout;
                        let ev = self.layout.tick();
                        let ms = self.custom.process(ev);
                        self.spawn_all(ms);
                        assert(tick_step(l1, self.layout, ev));
                    },
                    Message::SecondaryKeyRelease(i, j) => {
                        let _ = self.layout.event(Event::Release(i, j));
                        let ghost l1 = self.layout;
                        let ev = self.layout.tick();
                        let ms = self.custom.process(ev);
                        self.spawn_all(ms);
                        assert(tick_step(l1, self.layout, ev));
                    },
                    _ => {},
                }
            },
            None => {},
        }
        Effect::Nothing
    }

    /// Before the start-up, the other board is pinged to wake it; these
    /// are the bytes to send.
    pub fn ping(&mut self) -> (r: Vec<u8>)
        ensures
            *final(self) == *old(self),
            r@ == if !old(self).initd {
                enc(Message::Ping)
            } else {
                Seq::<u8>::empty()
            },
    {
        if !self.initd {
            self.tx.send_event(Message::Ping)
        } else {
            Vec::new()
        }
    }

    /// A sign of life from USB: the first one schedules the start-up.
    pub fn usb_event(&mut self) -> (r: Effect)
        ensures
            *final(self) == (Board { initd: true, ..*old(self) }),
            r == if old(self).initd {
                Effect::Nothing
            } else {
                Effect::ScheduleLateInit(1000)
            },
    {
        if !self.initd {
            self.initd = true;
            Effect::ScheduleLateInit(1000)
        } else {
            Effect::Nothing
        }
    }

    /// The next message waiting for the dispatcher.
    pub fn next_message(&mut self) -> (r: Option<Message>)
        requires
            old(self).wf(),
        ensures
            final(self).wf(),
            old(self).queue@.len() == 0 ==> r is None,
            old(self).queue@.len() > 0 ==> r == Some(old(self).queue@[0]) && final(self).queue@
                == old(self).queue@.drop_first() && in_matrix(old(self).queue@[0]),
    {
        if self.queue.len() == 0 {
            None
        } else {
            let m = self.queue.remove(0);
            Some(m)
        }
    }

    /// Hands out the bytes waiting for the serial link.
    pub fn take_outgoing(&mut self) -> (r: Vec<u8>)
        ensures
            r@ == old(self).outgoing@,
            final(self).outgoing@.len() == 0,
    {
        let mut out = Vec::new();
        core::mem::swap(&mut out, &mut self.outgoing);
        out
    }

    /// The keyboard report for the keys held now, with the held modifiers.
    pub fn keyboard_report(&self) -> (r: KbHidReport)
        ensures
            exists|base: KbHidReport|
                #[trigger] built_from(codes_of(self.layout.states@), base) && r.keys == base.keys
                    && r.modifiers == (base.modifiers | (if self.custom.hold_cmd {
                    8u8
                } else {
                    0u8
                }) | (if self.custom.hold_ctrl {
                    1u8
                } else {
                    0u8
                })),
    {
        let codes = self.layout.keycodes();
        let mut report = report_of(&codes);
        self.custom.modify_kb_report(&mut report);
        report
    }

    /// The next media-key report to send.
    pub fn media_report(&mut self) -> (r: Option<MediaKeyHidReport>)
        requires
            old(self).wf(),
        ensures
            final(self).wf(),
            queued(old(self).custom.mk_reports).len() == 0 ==> r is None,
            queued(old(self).custom.mk_reports).len() > 0 ==> r == Some(
                MediaKeyHidReport::of_usage(queued(old(self).custom.mk_reports)[0]),
            ) && queued(final(self).custom.mk_reports) == queued(
                old(self).custom.mk_reports,
            ).drop_first(),
    {
        self.custom.get_mk_report()
    }
}

} // verus!
