use vstd::prelude::*;

use crate::custom_action::{CustomEvent, KbHidReport, PkbAction};
use crate::message::Event;

verus! {

/// How a hold-tap key decides before its timeout.
#[derive(Copy, Clone, Debug, PartialEq, Eq, Structural)]
pub enum HoldTapConfig {
    /// Only a release (tap) or the timeout (hold) decides.
    Default,
    /// A press of another key while this one is undecided makes it a hold.
    HoldOnOtherKeyPress,
}

/// What a key of a layer does.
#[derive(Copy, Clone, Debug, PartialEq, Eq, Structural)]
pub enum KeyAction {
    /// Nothing.
    NoOp,
    /// The action of the default layer, at the same place.
    Trans,
    /// A key code.
    Key(u8),
    /// Two key codes at once, such as a modifier and a key.
    Keys(u8, u8),
    /// While held, this layer is active.
    Layer(usize),
    /// Makes this layer the default.
    DefaultLayer(usize),
    /// A custom action.
    Custom(PkbAction),
    /// A custom action, a new default layer, and a key code (0 for none),
    /// all at once.
    CustomSwitch(PkbAction, usize, u8),
    /// The `tap` key if released before `timeout` ticks, else the `hold`
    /// key.
    HoldTap { timeout: u16, tap: u8, hold: u8, config: HoldTapConfig },
}

/// A key being held, and what it does while held.
#[derive(Copy, Clone, Debug, PartialEq, Eq, Structural)]
pub enum KeyState {
    Code(u8, u8, u8),
    LayerModifier(usize, u8, u8),
    CustomKey(PkbAction, u8, u8),
}

/// A hold-tap key pressed and not yet decided.
#[derive(Copy, Clone, Debug, PartialEq, Eq, Structural)]
pub struct Waiting {
    pub row: u8,
    pub col: u8,
    pub elapsed: u16,
    pub timeout: u16,
    pub tap: u8,
    pub hold: u8,
    pub config: HoldTapConfig,
}

pub const ROWS: usize = 4;

pub const COLS: usize = 14;

/// The number of keys of a layer.
pub const LAYER_SIZE: usize = 56;

/// At most this many keys are held at once; more are ignored.
pub const MAX_STATES: usize = 64;

/// At most this many events wait while a hold-tap key is undecided.
pub const MAX_PENDING: usize = 16;

/// Where a key state is.
pub open spec fn state_at(s: KeyState, row: u8, col: u8) -> bool {
    match s {
        KeyState::Code(_, r, c) => r == row && c == col,
        KeyState::LayerModifier(_, r, c) => r == row && c == col,
        KeyState::CustomKey(_, r, c) => r == row && c == col,
    }
}

pub open spec fn is_release_of(e: Event, row: u8, col: u8) -> bool {
    e == Event::Release(row, col)
}

pub open spec fn is_press(e: Event) -> bool {
    e is Press
}

/// Whether a layer key is held among `s`.
pub open spec fn any_layer_held(s: Seq<KeyState>) -> bool {
    exists|k: int| 0 <= k < s.len() && #[trigger] s[k] is LayerModifier
}

/// The sum of the layers held among `s`.
pub open spec fn held_sum(s: Seq<KeyState>) -> int
    decreases s.len(),
{
    if s.len() == 0 {
        0
    } else {
        held_sum(s.drop_last()) + match s.last() {
            KeyState::LayerModifier(v, _, _) => v as int,
            _ => 0,
        }
    }
}

/// The key codes held among `s`, in order.
pub open spec fn codes_of(s: Seq<KeyState>) -> Seq<u8>
    decreases s.len(),
{
    if s.len() == 0 {
        seq![]
    } else {
        codes_of(s.drop_last()) + match s.last() {
            KeyState::Code(k, _, _) => seq![k],
            _ => seq![],
        }
    }
}

/// The states of `s` that do not belong to key (row, col), in order.
pub open spec fn kept_after_release(s: Seq<KeyState>, row: u8, col: u8) -> Seq<KeyState>
    decreases s.len(),
{
    if s.len() == 0 {
        seq![]
    } else {
        kept_after_release(s.drop_last(), row, col) + if state_at(s.last(), row, col) {
            Seq::<KeyState>::empty()
        } else {
            seq![s.last()]
        }
    }
}

/// The action stored for key (row, col) of `layer`; `NoOp` off the map.
pub open spec fn stored_action(layers: Seq<KeyAction>, layer: int, row: u8, col: u8) -> KeyAction {
    if row < ROWS && col < COLS && 0 <= layer < layers.len() / (LAYER_SIZE as nat) {
        layers[layer * LAYER_SIZE + row * COLS + col]
    } else {
        KeyAction::NoOp
    }
}

/// The action of key (row, col) on `layer`: a transparent key takes the
/// action of the default layer, and is nothing on the default layer itself.
pub open spec fn action_spec(layers: Seq<KeyAction>, default_layer: int, layer: int, row: u8, col: u8) -> KeyAction {
    match stored_action(layers, layer, row, col) {
        KeyAction::Trans => if layer != default_layer {
            match stored_action(layers, default_layer, row, col) {
                KeyAction::Trans => KeyAction::NoOp,
                a => a,
            }
        } else {
            KeyAction::NoOp
        },
        a => a,
    }
}

/// Pressing key (row, col) with `action` takes `l` to `n` and reports `r`.
pub open spec fn press_step(l: Layout, action: KeyAction, row: u8, col: u8, n: Layout, r: CustomEvent) -> bool {
    &&& n.layers == l.layers
    &&& n.pending == l.pending
    &&& match action {
        KeyAction::NoOp | KeyAction::Trans => n.states@ == l.states@ && n.default_layer
            == l.default_layer && n.waiting == l.waiting && r == CustomEvent::NoEvent,
        KeyAction::Key(k) => n.states@ == with_state(l.states@, KeyState::Code(k, row, col))
            && n.default_layer == l.default_layer && n.waiting == l.waiting && r
            == CustomEvent::NoEvent,
        KeyAction::Keys(a, b) => n.states@ == with_state(
            with_state(l.states@, KeyState::Code(a, row, col)),
            KeyState::Code(b, row, col),
        ) && n.default_layer == l.default_layer && n.waiting == l.waiting && r
            == CustomEvent::NoEvent,
        KeyAction::Layer(v) => n.states@ == with_state(
            l.states@,
            KeyState::LayerModifier(v, row, col),
        ) && n.default_layer == l.default_layer && n.waiting == l.waiting && r
            == CustomEvent::NoEvent,
        KeyAction::DefaultLayer(v) => n.states@ == l.states@ && n.default_layer == v
            && n.waiting == l.waiting && r == CustomEvent::NoEvent,
        KeyAction::Custom(p) => n.states@ == with_state(l.states@, KeyState::CustomKey(p, row, col))
            && n.default_layer == l.default_layer && n.waiting == l.waiting && r
            == CustomEvent::Press(p),
        KeyAction::CustomSwitch(p, v, k) => {
            let s1 = with_state(l.states@, KeyState::CustomKey(p, row, col));
            &&& n.states@ == if k != 0 {
                with_state(s1, KeyState::Code(k, row, col))
            } else {
                s1
            }
            &&& n.default_layer == v
            &&& n.waiting == l.waiting
            &&& r == CustomEvent::Press(p)
        },
        KeyAction::HoldTap { timeout, tap, hold, config } => {
            &&& n.states@ == l.states@
            &&& n.default_layer == l.default_layer
            &&& n.waiting == Some(
                Waiting { row, col, elapsed: 0, timeout, tap, hold, config },
            )
            &&& r == CustomEvent::NoEvent
        },
    }
}

/// Carrying out the matrix event `e` takes `l` to `n` and reports `r`: a
/// press does the action of the key on the active layer, a release ends
/// what the key holds.
pub open spec fn event_step(l: Layout, e: Event, n: Layout, r: CustomEvent) -> bool {
    match e {
        Event::Press(i, j) => press_step(
            l,
            action_spec(l.layers@, l.default_layer as int, active_layer(l), i, j),
            i,
            j,
            n,
            r,
        ),
        Event::Release(i, j) => {
            &&& n == (Layout { states: n.states, ..l })
            &&& n.states@ == kept_after_release(l.states@, i, j)
            &&& (r is NoEvent || (r matches CustomEvent::Release(p) && l.states@.contains(
                KeyState::CustomKey(p, i, j),
            )))
        },
    }
}

/// The active layer of `l`.
pub open spec fn active_layer(l: Layout) -> int {
    if any_layer_held(l.states@) {
        if held_sum(l.states@) > usize::MAX {
            usize::MAX as int
        } else {
            held_sum(l.states@)
        }
    } else {
        l.default_layer as int
    }
}

/// `m` is `l` with an undecided hold-tap key made a hold and the oldest
/// waiting event taken off.
pub open spec fn forced_hold_from(l: Layout, m: Layout) -> bool {
    &&& m.layers == l.layers
    &&& m.default_layer == l.default_layer
    &&& m.waiting is None
    &&& m.states@ == match l.waiting {
        Some(w) => with_state(l.states@, KeyState::Code(w.hold, w.row, w.col)),
        None => l.states@,
    }
    &&& m.pending@ == l.pending@.drop_first()
}

/// Taking the matrix event `e` takes `l` to `n` and reports `r`. The event
/// waits at the end of the queue; when the queue is full, an undecided
/// hold-tap key first becomes a hold and the oldest event is carried out.
pub open spec fn event_taken(l: Layout, e: Event, n: Layout, r: CustomEvent) -> bool {
    if l.pending@.len() < MAX_PENDING {
        n == (Layout { pending: n.pending, ..l }) && n.pending@ == l.pending@.push(e) && r
            == CustomEvent::NoEvent
    } else {
        exists|m: Layout|
            #[trigger] forced_hold_from(l, m) && event_step(
                m,
                l.pending@[0],
                Layout { pending: m.pending, ..n },
                r,
            ) && n.pending@ == m.pending@.push(e)
    }
}

/// One scan tick takes `l` to `n` and reports `r`. An undecided hold-tap
/// key is decided first: a tap if its release is waiting, a hold if another
/// key was pressed and its configuration says so, or once its timeout has
/// run out; while it is undecided the other events wait. Otherwise the
/// oldest waiting event is carried out.
pub open spec fn tick_step(l: Layout, n: Layout, r: CustomEvent) -> bool {
    &&& n.layers == l.layers
    &&& match l.waiting {
        Some(w) => {
            let released = exists|k: int|
                0 <= k < l.pending@.len() && is_release_of(#[trigger] l.pending@[k], w.row, w.col);
            let other_pressed = exists|k: int|
                0 <= k < l.pending@.len() && is_press(#[trigger] l.pending@[k]);
            let elapsed = if w.elapsed < u16::MAX {
                (w.elapsed + 1) as u16
            } else {
                w.elapsed
            };
            &&& r == CustomEvent::NoEvent
            &&& n.pending == l.pending
            &&& n.default_layer == l.default_layer
            &&& if released {
                n.waiting is None && n.states@ == with_state(
                    l.states@,
                    KeyState::Code(w.tap, w.row, w.col),
                )
            } else if (w.config == HoldTapConfig::HoldOnOtherKeyPress && other_pressed) || elapsed
                >= w.timeout {
                n.waiting is None && n.states@ == with_state(
                    l.states@,
                    KeyState::Code(w.hold, w.row, w.col),
                )
            } else {
                n.waiting == Some(Waiting { elapsed, ..w }) && n.states == l.states
            }
        },
        None => if l.pending@.len() == 0 {
            n == l && r == CustomEvent::NoEvent
        } else {
            event_step(Layout { pending: n.pending, ..l }, l.pending@[0], n, r) && n.pending@
                == l.pending@.drop_first()
        },
    }
}

/// The key map and what is being held: turns matrix events into key codes
/// and custom events, one step per scan tick.
pub struct Layout {
    /// Layer `l`, row `i`, column `j` is at `l * 56 + i * 14 + j`.
    pub layers: Vec<KeyAction>,
    pub default_layer: usize,
    pub states: Vec<KeyState>,
    pub waiting: Option<Waiting>,
    pub pending: Vec<Event>,
}

/// `n` is `s` with a key state added, unless `s` is full.
pub open spec fn with_state(s: Seq<KeyState>, k: KeyState) -> Seq<KeyState> {
    if s.len() < MAX_STATES {
        s.push(k)
    } else {
        s
    }
}

impl Layout {
    pub open spec fn wf(&self) -> bool {
        &&& self.layers@.len() % (LAYER_SIZE as nat) == 0
        &&& self.states@.len() <= MAX_STATES
        &&& self.pending@.len() <= MAX_PENDING
    }

    /// A layout on these layers, with layer 0 the default and nothing held.
    pub fn new(layers: Vec<KeyAction>) -> (r: Layout)
        requires
            layers@.len() % (LAYER_SIZE as nat) == 0,
        ensures
            r.wf(),
            r.layers == layers,
            r.default_layer == 0,
            r.states@.len() == 0,
            r.waiting is None,
            r.pending@.len() == 0,
    {
        Layout { layers, default_layer: 0, states: Vec::new(), waiting: None, pending: Vec::new() }
    }

    /// Makes `l` the default layer.
    pub fn set_default_layer(&mut self, l: usize)
        ensures
            *final(self) == (Layout { default_layer: l, ..*old(self) }),
    {
        self.default_layer = l;
    }

    /// The active layer: the sum of the layers held (at most `usize::MAX`),
    /// or the default one when none is held.
    pub fn current_layer(&self) -> (r: usize)
        ensures
            r == if any_layer_held(self.states@) {
                if held_sum(self.states@) > usize::MAX {
                    usize::MAX as int
                } else {
                    held_sum(self.states@)
                }
            } else {
                self.default_layer as int
            },
    {
        let mut sum: usize = 0;
        let mut any = false;
        let mut i: usize = 0;
        while i < self.states.len()
            invariant
                i <= self.states@.len(),
                any == any_layer_held(self.states@.subrange(0, i as int)),
                sum == if held_sum(self.states@.subrange(0, i as int)) > usize::MAX {
                    usize::MAX as int
                } else {
                    held_sum(self.states@.subrange(0, i as int))
                },
            decreases self.states@.len() - i,
        {
            let ghost prefix = self.states@.subrange(0, i as int);
            let ghost next = self.states@.subrange(0, i + 1);
            proof {
                assert(next.drop_last() =~= prefix);
                lemma_held_sum_nonneg(prefix);
                if any_layer_held(next) {
                    let k = choose|k: int| 0 <= k < next.len() && #[trigger] next[k] is LayerModifier;
                    if k < i {
                        assert(prefix[k] == next[k]);
                    }
                }
                if any_layer_held(prefix) {
                    let k = choose|k: int| 0 <= k < prefix.len() && #[trigger] prefix[k] is LayerModifier;
                    assert(next[k] == prefix[k]);
                }
            }
            match self.states[i] {
                KeyState::LayerModifier(v, _, _) => {
                    assert(next[i as int] is LayerModifier);
                    any = true;
                    sum = sum.saturating_add(v);
                },
                _ => {},
            }
            i += 1;
        }
        assert(self.states@.subrange(0, self.states@.len() as int) =~= self.states@);
        if any {
            sum
        } else {
            self.default_layer
        }
    }

    fn lookup(&self, layer: usize, row: u8, col: u8) -> (r: KeyAction)
        requires
            self.wf(),
        ensures
            r == stored_action(self.layers@, layer as int, row, col),
    {
        let key = row as usize * COLS + col as usize;
        if (row as usize) < ROWS && (col as usize) < COLS && layer < self.layers.len() / LAYER_SIZE {
            proof {
                assert(layer * LAYER_SIZE + key < self.layers@.len()) by (nonlinear_arith)
                    requires
                        layer < self.layers@.len() / (LAYER_SIZE as nat),
                        key < LAYER_SIZE,
                        self.layers@.len() % (LAYER_SIZE as nat) == 0,
                ;
            }
            self.layers[layer * LAYER_SIZE + key]
        } else {
            KeyAction::NoOp
        }
    }

    /// The action of key (row, col) on `layer`, falling through to the
    /// default layer where the key is transparent.
    fn action_at(&self, layer: usize, row: u8, col: u8) -> (r: KeyAction)
        requires
            self.wf(),
        ensures
            r == action_spec(self.layers@, self.default_layer as int, layer as int, row, col),
    {
        match self.lookup(layer, row, col) {
            KeyAction::Trans => {
                if layer != self.default_layer {
                    match self.lookup(self.default_layer, row, col) {
                        KeyAction::Trans => KeyAction::NoOp,
                        a => a,
                    }
                } else {
                    KeyAction::NoOp
                }
            },
            a => a,
        }
    }

    fn add_state(&mut self, k: KeyState)
        requires
            old(self).wf(),
        ensures
            final(self).wf(),
            final(self).states@ == with_state(old(self).states@, k),
            final(self).layers == old(self).layers,
            final(self).default_layer == old(self).default_layer,
            final(self).waiting == old(self).waiting,
            final(self).pending == old(self).pending,
    {
        if self.states.len() < MAX_STATES {
            self.states.push(k);
        }
    }

    fn do_action(&mut self, action: KeyAction, row: u8, col: u8) -> (r: CustomEvent)
        requires
            old(self).wf(),
            old(self).waiting is None,
        ensures
            final(self).wf(),
            press_step(*old(self), action, row, col, *final(self), r),
    {
        match action {
            KeyAction::NoOp | KeyAction::Trans => CustomEvent::NoEvent,
            KeyAction::Key(k) => {
                self.add_state(KeyState::Code(k, row, col));
                CustomEvent::NoEvent
            },
            KeyAction::Keys(a, b) => {
                self.add_state(KeyState::Code(a, row, col));
                self.add_state(KeyState::Code(b, row, col));
                CustomEvent::NoEvent
            },
            KeyAction::Layer(l) => {
                self.add_state(KeyState::LayerModifier(l, row, col));
                CustomEvent::NoEvent
            },
            KeyAction::DefaultLayer(l) => {
                self.default_layer = l;
                CustomEvent::NoEvent
            },
            KeyAction::Custom(p) => {
                self.add_state(KeyState::CustomKey(p, row, col));
                CustomEvent::Press(p)
            },
            KeyAction::CustomSwitch(p, l, k) => {
                self.add_state(KeyState::CustomKey(p, row, col));
                self.default_layer = l;
                if k != 0 {
                    self.add_state(KeyState::Code(k, row, col));
                }
                CustomEvent::Press(p)
            },
            KeyAction::HoldTap { timeout, tap, hold, config } => {
                self.waiting = Some(
                    Waiting { row, col, elapsed: 0, timeout, tap, hold, config },
                );
                CustomEvent::NoEvent
            },
        }
    }

    /// Lets go of key (row, col): every state it holds ends, and a custom
    /// action it held is released.
    fn release_key(&mut self, row: u8, col: u8) -> (r: CustomEvent)
        requires
            old(self).wf(),
        ensures
            final(self).wf(),
            final(self).layers == old(self).layers,
            final(self).default_layer == old(self).default_layer,
            final(self).waiting == old(self).waiting,
            final(self).pending == old(self).pending,
            final(self).states@ == kept_after_release(old(self).states@, row, col),
            r is NoEvent || (r matches CustomEvent::Release(p) && old(self).states@.contains(
                KeyState::CustomKey(p, row, col),
            )),
    {
        let mut kept: Vec<KeyState> = Vec::new();
        let mut ev = CustomEvent::NoEvent;
        let mut i: usize = 0;
        while i < self.states.len()
            invariant
                i <= self.states@.len(),
                self.states@.len() <= MAX_STATES,
                kept@.len() <= i,
                kept@ == kept_after_release(self.states@.subrange(0, i as int), row, col),
                ev is NoEvent || (ev matches CustomEvent::Release(p) && self.states@.contains(
                    KeyState::CustomKey(p, row, col),
                )),
            decreases self.states@.len() - i,
        {
            let ghost next = self.states@.subrange(0, i + 1);
            proof {
                assert(next.drop_last() =~= self.states@.subrange(0, i as int));
            }
            let s = self.states[i];
            let here = match s {
                KeyState::Code(_, r, c) => r == row && c == col,
                KeyState::LayerModifier(_, r, c) => r == row && c == col,
                KeyState::CustomKey(_, r, c) => r == row && c == col,
            };
            if here {
                match s {
                    KeyState::CustomKey(p, _, _) => {
                        assert(self.states@[i as int] == KeyState::CustomKey(p, row, col));
                        ev = CustomEvent::Release(p);
                    },
                    _ => {},
                }
            } else {
                kept.push(s);
            }
            assert(kept@ =~= kept_after_release(next, row, col));
            i += 1;
        }
        assert(self.states@.subrange(0, self.states@.len() as int) =~= self.states@);
        self.states = kept;
        ev
    }

    /// Carries out one matrix event.
    fn unstack(&mut self, e: Event) -> (r: CustomEvent)
        requires
            old(self).wf(),
            old(self).waiting is None,
        ensures
            final(self).wf(),
            event_step(*old(self), e, *final(self), r),
    {
        match e {
            Event::Press(i, j) => {
                let layer = self.current_layer();
                let action = self.action_at(layer, i, j);
                self.do_action(action, i, j)
            },
            Event::Release(i, j) => self.release_key(i, j),
        }
    }

    fn has_release(&self, row: u8, col: u8) -> (r: bool)
        ensures
            r == exists|k: int|
                0 <= k < self.pending@.len() && is_release_of(#[trigger] self.pending@[k], row, col),
    {
        let mut i: usize = 0;
        while i < self.pending.len()
            invariant
                i <= self.pending@.len(),
                forall|k: int| 0 <= k < i ==> !is_release_of(#[trigger] self.pending@[k], row, col),
            decreases self.pending@.len() - i,
        {
            if self.pending[i] == Event::Release(row, col) {
                return true;
            }
            i += 1;
        }
        false
    }

    fn has_press(&self) -> (r: bool)
        ensures
            r == exists|k: int| 0 <= k < self.pending@.len() && is_press(#[trigger] self.pending@[k]),
    {
        let mut i: usize = 0;
        while i < self.pending.len()
            invariant
                i <= self.pending@.len(),
                forall|k: int| 0 <= k < i ==> !is_press(#[trigger] self.pending@[k]),
            decreases self.pending@.len() - i,
        {
            match self.pending[i] {
                Event::Press(_, _) => {
                    return true;
                },
                _ => {},
            }
            i += 1;
        }
        false
    }

    /// Takes a matrix event. Events wait in order until the next ticks; when
    /// too many wait, an undecided hold-tap key becomes a hold and the oldest
    /// event is carried out at once.
    pub fn event(&mut self, e: Event) -> (r: CustomEvent)
        requires
            old(self).wf(),
        ensures
            final(self).wf(),
            event_taken(*old(self), e, *final(self), r),
    {
        let mut r = CustomEvent::NoEvent;
        if self.pending.len() >= MAX_PENDING {
            match self.waiting {
                Some(w) => {
                    self.waiting = None;
                    self.add_state(KeyState::Code(w.hold, w.row, w.col));
                },
                None => {},
            }
            let oldest = self.pending.remove(0);
            let ghost mid = *self;
            r = self.unstack(oldest);
            let ghost after = *self;
            self.pending.push(e);
            proof {
                assert(after == (Layout { pending: mid.pending, ..*self }));
                assert(forced_hold_from(*old(self), mid));
            }
        } else {
            self.pending.push(e);
        }
        r
    }

    /// One scan tick. An undecided hold-tap key is decided first: a tap if
    /// its release is waiting, a hold if another key was pressed and its
    /// configuration says so, or once its timeout has run out. While it is
    /// undecided the other events wait; otherwise the oldest waiting event
    /// is carried out.
    pub fn tick(&mut self) -> (r: CustomEvent)
        requires
            old(self).wf(),
        ensures
            final(self).wf(),
            tick_step(*old(self), *final(self), r),
    {
        match self.waiting {
            Some(w) => {
                let elapsed = w.elapsed.saturating_add(1);
                if self.has_release(w.row, w.col) {
                    self.waiting = None;
                    self.add_state(KeyState::Code(w.tap, w.row, w.col));
                } else if (w.config == HoldTapConfig::HoldOnOtherKeyPress && self.has_press())
                    || elapsed >= w.timeout {
                    self.waiting = None;
                    self.add_state(KeyState::Code(w.hold, w.row, w.col));
                } else {
                    self.waiting = Some(Waiting { elapsed, ..w });
                }
                CustomEvent::NoEvent
            },
            None => {
                if self.pending.len() == 0 {
                    return CustomEvent::NoEvent;
                }
                let e = self.pending.remove(0);
                self.unstack(e)
            },
        }
    }

    /// The key codes held, in the order they were pressed.
    pub fn keycodes(&self) -> (r: Vec<u8>)
        ensures
            r@ == codes_of(self.states@),
    {
        let mut out: Vec<u8> = Vec::new();
        let mut i: usize = 0;
        while i < self.states.len()
            invariant
                i <= self.states@.len(),
                out@ == codes_of(self.states@.subrange(0, i as int)),
            decreases self.states@.len() - i,
        {
            let ghost next = self.states@.subrange(0, i + 1);
            proof {
                assert(next.drop_last() =~= self.states@.subrange(0, i as int));
            }
            match self.states[i] {
                KeyState::Code(k, _, _) => out.push(k),
                _ => {},
            }
            assert(out@ =~= codes_of(next));
            i += 1;
        }
        assert(self.states@.subrange(0, self.states@.len() as int) =~= self.states@);
        out
    }
}

proof fn lemma_held_sum_nonneg(s: Seq<KeyState>)
    ensures
        held_sum(s) >= 0,
    decreases s.len(),
{
    if s.len() > 0 {
        lemma_held_sum_nonneg(s.drop_last());
    }
}

/// The layouts `chain` follow one another by one scan tick each, the ticks
/// reporting `evs`.
pub open spec fn tick_chain(chain: Seq<Layout>, evs: Seq<CustomEvent>) -> bool {
    &&& chain.len() == evs.len() + 1
    &&& forall|i: int| 0 <= i < evs.len() ==> #[trigger] tick_step(chain[i], chain[i + 1], evs[i])
}

/// `l` holds the hold-tap key `w`, just pressed and undecided, with no other
/// event waiting.
pub open spec fn just_pressed(l: Layout, w: Waiting) -> bool {
    &&& l.waiting == Some(w)
    &&& w.elapsed == 0
    &&& l.pending@.len() == 0
}

/// While nothing else happens, a hold-tap key stays undecided until its
/// timeout, counting the ticks.
pub proof fn lemma_still_waiting(chain: Seq<Layout>, evs: Seq<CustomEvent>, w: Waiting)
    requires
        tick_chain(chain, evs),
        just_pressed(chain[0], w),
        evs.len() < w.timeout,
    ensures
        chain.last().waiting == Some(Waiting { elapsed: evs.len() as u16, ..w }),
        chain.last().states == chain[0].states,
        chain.last().pending == chain[0].pending,
        chain.last().layers == chain[0].layers,
        chain.last().default_layer == chain[0].default_layer,
    decreases evs.len(),
{
    if evs.len() > 0 {
        let n = evs.len() as int;
        let c2 = chain.drop_last();
        let e2 = evs.drop_last();
        assert forall|i: int| 0 <= i < e2.len() implies #[trigger] tick_step(c2[i], c2[i + 1], e2[i]) by {
            assert(tick_step(chain[i], chain[i + 1], evs[i]));
        }
        lemma_still_waiting(c2, e2, w);
        assert(tick_step(chain[n - 1], chain[n], evs[n - 1]));
    }
}

/// A hold-tap key held on its own for `timeout` ticks becomes a hold: its
/// hold key is held.
pub proof fn lemma_hold_tap_holds(chain: Seq<Layout>, evs: Seq<CustomEvent>, w: Waiting)
    requires
        tick_chain(chain, evs),
        just_pressed(chain[0], w),
        w.timeout >= 1,
        evs.len() == w.timeout,
    ensures
        chain.last().waiting is None,
        chain.last().states@ == with_state(chain[0].states@, KeyState::Code(w.hold, w.row, w.col)),
{
    let n = evs.len() as int;
    let c2 = chain.drop_last();
    let e2 = evs.drop_last();
    assert forall|i: int| 0 <= i < e2.len() implies #[trigger] tick_step(c2[i], c2[i + 1], e2[i]) by {
        assert(tick_step(chain[i], chain[i + 1], evs[i]));
    }
    lemma_still_waiting(c2, e2, w);
    assert(tick_step(chain[n - 1], chain[n], evs[n - 1]));
}

/// A hold-tap key released before its timeout, no other key pressed,
/// becomes a tap at the next tick: its tap key is held.
pub proof fn lemma_hold_tap_taps(
    chain: Seq<Layout>,
    evs: Seq<CustomEvent>,
    w: Waiting,
    released: Layout,
    r: CustomEvent,
    after: Layout,
    ev: CustomEvent,
)
    requires
        tick_chain(chain, evs),
        just_pressed(chain[0], w),
        evs.len() < w.timeout,
        event_taken(chain.last(), Event::Release(w.row, w.col), released, r),
        tick_step(released, after, ev),
    ensures
        after.waiting is None,
        after.states@ == with_state(chain[0].states@, KeyState::Code(w.tap, w.row, w.col)),
{
    lemma_still_waiting(chain, evs, w);
    assert(released.pending@[0] == Event::Release(w.row, w.col));
}

/// Under `HoldOnOtherKeyPress`, a press of another key before the timeout
/// makes the hold-tap key a hold at the next tick.
pub proof fn lemma_hold_on_other_press(
    chain: Seq<Layout>,
    evs: Seq<CustomEvent>,
    w: Waiting,
    row: u8,
    col: u8,
    pressed: Layout,
    r: CustomEvent,
    after: Layout,
    ev: CustomEvent,
)
    requires
        tick_chain(chain, evs),
        just_pressed(chain[0], w),
        w.config == HoldTapConfig::HoldOnOtherKeyPress,
        evs.len() < w.timeout,
        event_taken(chain.last(), Event::Press(row, col), pressed, r),
        tick_step(pressed, after, ev),
    ensures
        after.waiting is None,
        after.states@ == with_state(chain[0].states@, KeyState::Code(w.hold, w.row, w.col)),
{
    lemma_still_waiting(chain, evs, w);
    assert(pressed.pending@[0] == Event::Press(row, col));
    assert(!is_release_of(pressed.pending@[0], w.row, w.col));
    assert(pressed.pending@.len() == 1);
}

/// Whether a key code is a modifier, sent as a bit of the first byte.
pub open spec fn is_modifier(kc: u8) -> bool {
    0xE0 <= kc <= 0xE7
}

/// The report after adding key `kc`: nothing for 0, a modifier bit for a
/// modifier, every slot for an error code (1 to 3), else the first free slot,
/// or every slot set to 1 (roll-over) when none is free.
pub open spec fn pressed_spec(r: KbHidReport, kc: u8, n: KbHidReport) -> bool {
    if kc == 0 {
        n == r
    } else if 1 <= kc <= 3 {
        n.modifiers == r.modifiers && forall|k: int| 0 <= k < 6 ==> #[trigger] n.keys[k] == kc
    } else if is_modifier(kc) {
        n.keys == r.keys && n.modifiers == (r.modifiers | (1u8 << ((kc - 0xE0) as u8)))
    } else {
        &&& n.modifiers == r.modifiers
        &&& if first_free(r.keys) < 6 {
            forall|m: int|
                0 <= m < 6 ==> #[trigger] n.keys[m] == if m == first_free(r.keys) {
                    kc
                } else {
                    r.keys[m]
                }
        } else {
            forall|k: int| 0 <= k < 6 ==> #[trigger] n.keys[k] == 1
        }
    }
}

/// The first empty key slot, or 6 when all are taken.
pub open spec fn first_free(keys: [u8; 6]) -> int {
    if keys[0] == 0 {
        0
    } else if keys[1] == 0 {
        1
    } else if keys[2] == 0 {
        2
    } else if keys[3] == 0 {
        3
    } else if keys[4] == 0 {
        4
    } else if keys[5] == 0 {
        5
    } else {
        6
    }
}

impl KbHidReport {
    /// An empty report.
    pub fn new() -> (r: KbHidReport)
        ensures
            r.modifiers == 0,
            forall|k: int| 0 <= k < 6 ==> #[trigger] r.keys[k] == 0,
    {
        KbHidReport { modifiers: 0, keys: [0;6] }
    }

    /// Adds key `kc` to the report.
    pub fn pressed(&mut self, kc: u8)
        ensures
            pressed_spec(*old(self), kc, *final(self)),
    {
        if kc == 0 {
            return;
        }
        if kc <= 3 {
            self.keys = [kc;6];
            return;
        }
        if kc >= 0xE0 && kc <= 0xE7 {
            let shift: u8 = kc - 0xE0;
            self.modifiers = self.modifiers | (1u8 << shift);
            return;
        }
        let mut k: usize = 0;
        while k < 6
            invariant
                k <= 6,
                kc > 3,
                !is_modifier(kc),
                *self == *old(self),
                forall|m: int| 0 <= m < k ==> #[trigger] self.keys[m] != 0,
            decreases 6 - k,
        {
            if self.keys[k] == 0 {
                proof {
                    assert(self.keys[0] != 0 || k == 0);
                    assert(k <= 1 || self.keys[1] != 0);
                    assert(k <= 2 || self.keys[2] != 0);
                    assert(k <= 3 || self.keys[3] != 0);
                    assert(k <= 4 || self.keys[4] != 0);
                    assert(first_free(self.keys) == k as int);
                }
                self.keys[k] = kc;
                return;
            }
            k += 1;
        }
        proof {
            assert(self.keys[5] != 0);
            assert(first_free(self.keys) == 6);
        }
        self.keys = [1;6];
    }

    /// The eight bytes sent to the host: modifiers, a reserved zero, then
    /// the six key slots.
    pub fn as_bytes(&self) -> (r: [u8; 8])
        ensures
            r@ == seq![0u8, 0u8].update(0, self.modifiers) + self.keys@,
    {
        let k = self.keys;
        let r = [self.modifiers, 0, k[0], k[1], k[2], k[3], k[4], k[5]];
        assert(r@ =~= seq![0u8, 0u8].update(0, self.modifiers) + self.keys@);
        r
    }
}

/// `reps` are the reports met while adding `codes` in order to an empty
/// report.
pub open spec fn report_chain(codes: Seq<u8>, reps: Seq<KbHidReport>) -> bool {
    &&& reps.len() == codes.len() + 1
    &&& reps[0].modifiers == 0
    &&& forall|k: int| 0 <= k < 6 ==> #[trigger] reps[0].keys[k] == 0
    &&& forall|i: int| 0 <= i < codes.len() ==> pressed_spec(reps[i], codes[i], #[trigger] reps[i + 1])
}

/// `r` is the report with the key codes `codes` added in order.
pub open spec fn built_from(codes: Seq<u8>, r: KbHidReport) -> bool {
    exists|reps: Seq<KbHidReport>| #[trigger] report_chain(codes, reps) && r == reps.last()
}

/// The report for the key codes `codes`, added in order.
pub fn report_of(codes: &Vec<u8>) -> (r: KbHidReport)
    ensures
        built_from(codes@, r),
{
    let mut r = KbHidReport::new();
    let ghost mut reps: Seq<KbHidReport> = seq![r];
    let mut i: usize = 0;
    while i < codes.len()
        invariant
            i <= codes@.len(),
            report_chain(codes@.subrange(0, i as int), reps),
            r == reps.last(),
        decreases codes@.len() - i,
    {
        let ghost prev = reps;
        r.pressed(codes[i]);
        proof {
            reps = reps.push(r);
            let c = codes@.subrange(0, i + 1);
            assert forall|j: int| 0 <= j < c.len() implies pressed_spec(reps[j], c[j], #[trigger] reps[j + 1]) by {
                if j < i {
                    assert(reps[j] == prev[j] && reps[j + 1] == prev[j + 1]);
                    assert(c[j] == codes@.subrange(0, i as int)[j]);
                }
            }
        }
        i += 1;
    }
    assert(codes@.subrange(0, codes@.len() as int) =~= codes@);
    r
}

} // verus!
