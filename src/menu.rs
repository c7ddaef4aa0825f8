use vstd::prelude::*;

use crate::leds::{Action, Mode};
use crate::message::{DisplayedState, Message};
use crate::multi::Multi;

verus! {

/// A key of the menu.
#[derive(Copy, Clone, Debug, PartialEq, Eq, Structural)]
pub enum MenuAction {
    Up,
    Down,
    Select,
    Close,
    Left,
    Right,
}

/// What the primary board asks of the menu page of the other board.
#[derive(Copy, Clone, Debug, PartialEq, Eq, Structural)]
pub enum SecondaryMenuAction {
    Open(DisplayedState),
    Close,
}

/// What choosing an entry does.
#[derive(Copy, Clone, Debug, PartialEq, Eq, Structural)]
pub enum ItemKind {
    /// Closes the menu and sends the message.
    Item(Message),
    /// Opens the submenu with this index.
    SubMenu(usize),
    /// Opens the submenu with this index, has the other board show the
    /// page, and sends the message.
    SecondaryMenu(usize, DisplayedState, Message),
    /// Stays open; left and right send the first and second message.
    Dial(Message, Message),
}

/// The number of menus.
pub const MENU_COUNT: usize = 7;

/// The number of entries of menu `m`, not counting "back".
pub open spec fn menu_len(m: int) -> int {
    if m == 0 {
        4
    } else if m == 1 {
        2
    } else if m == 2 {
        3
    } else if m == 3 {
        3
    } else if m == 4 {
        2
    } else if m == 5 {
        3
    } else {
        4
    }
}

/// Entry `k` (from 0) of menu `m`.
pub open spec fn item_kind(m: int, k: int) -> ItemKind {
    if m == 0 {
        if k == 0 {
            ItemKind::Item(Message::Ping)
        } else if k == 1 {
            ItemKind::SubMenu(1)
        } else if k == 2 {
            ItemKind::SubMenu(5)
        } else {
            ItemKind::SubMenu(4)
        }
    } else if m == 1 {
        if k == 0 {
            ItemKind::SubMenu(2)
        } else {
            ItemKind::SubMenu(3)
        }
    } else if m == 2 {
        if k == 0 {
            ItemKind::Item(Message::DisplaySelect(DisplayedState::Info))
        } else if k == 1 {
            ItemKind::Item(Message::DisplaySelect(DisplayedState::Bongo))
        } else {
            ItemKind::Item(Message::DisplaySelect(DisplayedState::Leds))
        }
    } else if m == 3 {
        if k == 0 {
            ItemKind::Item(Message::SecondaryDisplaySelect(DisplayedState::Info))
        } else if k == 1 {
            ItemKind::Item(Message::SecondaryDisplaySelect(DisplayedState::Bongo))
        } else {
            ItemKind::Item(Message::SecondaryDisplaySelect(DisplayedState::Leds))
        }
    } else if m == 4 {
        if k == 0 {
            ItemKind::Item(Message::SetDefaultLayer(0))
        } else {
            ItemKind::Item(Message::SetDefaultLayer(6))
        }
    } else if m == 5 {
        if k == 0 {
            ItemKind::Item(Message::LED(Action::SetMode(Mode::Off)))
        } else if k == 1 {
            ItemKind::SecondaryMenu(
                6,
                DisplayedState::Leds,
                Message::LED(Action::SetMode(Mode::Solid)),
            )
        } else {
            ItemKind::Item(Message::LED(Action::SetMode(Mode::Wheel)))
        }
    } else {
        if k == 0 {
            ItemKind::Dial(Message::LED(Action::DecrementRed), Message::LED(Action::IncrementRed))
        } else if k == 1 {
            ItemKind::Dial(
                Message::LED(Action::DecrementGreen),
                Message::LED(Action::IncrementGreen),
            )
        } else if k == 2 {
            ItemKind::Dial(
                Message::LED(Action::DecrementBlue),
                Message::LED(Action::IncrementBlue),
            )
        } else {
            ItemKind::Dial(Message::LED(Action::Update), Message::LED(Action::Update))
        }
    }
}

/// The number of entries of menu `m`.
pub fn menu_len_of(m: usize) -> (r: usize)
    requires
        m < MENU_COUNT,
    ensures
        r == menu_len(m as int),
{
    match m {
        0 => 4,
        1 => 2,
        2 => 3,
        3 => 3,
        4 => 2,
        5 => 3,
        _ => 4,
    }
}

/// Entry `k` (from 0) of menu `m`.
pub fn item_kind_of(m: usize, k: usize) -> (r: ItemKind)
    requires
        m < MENU_COUNT,
        k < menu_len(m as int),
    ensures
        r == item_kind(m as int, k as int),
{
    match (m, k) {
        (0, 0) => ItemKind::Item(Message::Ping),
        (0, 1) => ItemKind::SubMenu(1),
        (0, 2) => ItemKind::SubMenu(5),
        (0, _) => ItemKind::SubMenu(4),
        (1, 0) => ItemKind::SubMenu(2),
        (1, _) => ItemKind::SubMenu(3),
        (2, 0) => ItemKind::Item(Message::DisplaySelect(DisplayedState::Info)),
        (2, 1) => ItemKind::Item(Message::DisplaySelect(DisplayedState::Bongo)),
        (2, _) => ItemKind::Item(Message::DisplaySelect(DisplayedState::Leds)),
        (3, 0) => ItemKind::Item(Message::SecondaryDisplaySelect(DisplayedState::Info)),
        (3, 1) => ItemKind::Item(Message::SecondaryDisplaySelect(DisplayedState::Bongo)),
        (3, _) => ItemKind::Item(Message::SecondaryDisplaySelect(DisplayedState::Leds)),
        (4, 0) => ItemKind::Item(Message::SetDefaultLayer(0)),
        (4, _) => ItemKind::Item(Message::SetDefaultLayer(6)),
        (5, 0) => ItemKind::Item(Message::LED(Action::SetMode(Mode::Off))),
        (5, 1) => ItemKind::SecondaryMenu(
            6,
            DisplayedState::Leds,
            Message::LED(Action::SetMode(Mode::Solid)),
        ),
        (5, _) => ItemKind::Item(Message::LED(Action::SetMode(Mode::Wheel))),
        (_, 0) => ItemKind::Dial(
            Message::LED(Action::DecrementRed),
            Message::LED(Action::IncrementRed),
        ),
        (_, 1) => ItemKind::Dial(
            Message::LED(Action::DecrementGreen),
            Message::LED(Action::IncrementGreen),
        ),
        (_, 2) => ItemKind::Dial(
            Message::LED(Action::DecrementBlue),
            Message::LED(Action::IncrementBlue),
        ),
        (_, _) => ItemKind::Dial(Message::LED(Action::Update), Message::LED(Action::Update)),
    }
}

/// The label of entry `k` (from 0) of menu `m`.
pub open spec fn item_label(m: int, k: int) -> Seq<char> {
    if m == 0 {
        if k == 0 {
            "ping"@
        } else if k == 1 {
            "display"@
        } else if k == 2 {
            "leds"@
        } else {
            "keymap"@
        }
    } else if m == 1 {
        if k == 0 {
            "left"@
        } else {
            "right"@
        }
    } else if m == 2 {
        if k == 0 {
            "info"@
        } else if k == 1 {
            "bongo"@
        } else {
            "leds"@
        }
    } else if m == 3 {
        if k == 0 {
            "info"@
        } else if k == 1 {
            "bongo"@
        } else {
            "leds"@
        }
    } else if m == 4 {
        if k == 0 {
            "default"@
        } else {
            "cs"@
        }
    } else if m == 5 {
        if k == 0 {
            "off"@
        } else if k == 1 {
            "solid"@
        } else {
            "wheel"@
        }
    } else {
        if k == 0 {
            "red"@
        } else if k == 1 {
            "green"@
        } else if k == 2 {
            "blue"@
        } else {
            "update"@
        }
    }
}

/// The label of entry `k` (from 0) of menu `m`.
pub fn item_name(m: usize, k: usize) -> (r: &'static str)
    requires
        m < MENU_COUNT,
        k < menu_len(m as int),
    ensures
        r@ == item_label(m as int, k as int),
{
    proof {
        reveal_strlit("blue");
        reveal_strlit("bongo");
        reveal_strlit("cs");
        reveal_strlit("default");
        reveal_strlit("display");
        reveal_strlit("green");
        reveal_strlit("info");
        reveal_strlit("keymap");
        reveal_strlit("leds");
        reveal_strlit("left");
        reveal_strlit("off");
        reveal_strlit("ping");
        reveal_strlit("red");
        reveal_strlit("right");
        reveal_strlit("solid");
        reveal_strlit("update");
        reveal_strlit("wheel");
    }
    match (m, k) {
        (0, 0) => "ping",
        (0, 1) => "display",
        (0, 2) => "leds",
        (0, _) => "keymap",
        (1, 0) => "left",
        (1, _) => "right",
        (2, 0) | (3, 0) => "info",
        (2, 1) | (3, 1) => "bongo",
        (2, _) | (3, _) => "leds",
        (4, 0) => "default",
        (4, _) => "cs",
        (5, 0) => "off",
        (5, 1) => "solid",
        (5, _) => "wheel",
        (_, 0) => "red",
        (_, 1) => "green",
        (_, 2) => "blue",
        (_, _) => "update",
    }
}

/// A stack of four entries at most, top first; a push on a full stack
/// empties it.
pub open spec fn pushed(s: Seq<usize>, v: usize) -> Seq<usize> {
    if s.len() < 4 {
        seq![v] + s
    } else {
        Seq::empty()
    }
}

/// The top of a stack, or 0 for an empty one.
pub open spec fn top_or_zero(s: Seq<usize>) -> usize {
    if s.len() > 0 {
        s[0]
    } else {
        0
    }
}

/// A stack with its top removed.
pub open spec fn popped(s: Seq<usize>) -> Seq<usize> {
    if s.len() > 0 {
        s.drop_first()
    } else {
        s
    }
}

/// The messages sent when the menu closes.
pub open spec fn close_messages(default_layer: usize, last: DisplayedState) -> Seq<Message> {
    seq![
        Message::SetDefaultLayer(default_layer),
        Message::DisplaySelect(last),
        Message::SecondaryMenu(SecondaryMenuAction::Close),
    ]
}

/// The menu: where the cursor is, the way back up, and the page to go back
/// to when it closes.
#[derive(Copy, Clone)]
pub struct Menu {
    pub current_menu: usize,
    /// 0 is "back"; entry `k` of the menu is at `k + 1`.
    pub current_item: usize,
    pub last_display_state: DisplayedState,
    pub default_layer: usize,
    pub previous_menu: Multi<usize>,
    pub previous_item: Multi<usize>,
}

impl Menu {
    /// The cursor is on "back" or on an entry of an existing menu, and every
    /// menu on the way back exists.
    pub open spec fn wf(self) -> bool {
        &&& self.current_menu < MENU_COUNT
        &&& self.current_item <= menu_len(self.current_menu as int)
        &&& forall|k: int|
            0 <= k < self.previous_menu@.len() ==> #[trigger] self.previous_menu@[k] < MENU_COUNT
    }

    /// This menu, closed: at the top, on "back", with no way back.
    pub open spec fn is_closed_from(self, prev: Menu) -> bool {
        &&& self.current_menu == 0
        &&& self.current_item == 0
        &&& self.previous_menu@.len() == 0
        &&& self.previous_item@.len() == 0
        &&& self.last_display_state == prev.last_display_state
        &&& self.default_layer == prev.default_layer
    }

    pub fn new() -> (r: Menu)
        ensures
            r.wf(),
            r.is_closed_from(r),
            r.last_display_state == DisplayedState::Info,
            r.default_layer == 0,
    {
        Menu {
            current_menu: 0,
            current_item: 0,
            last_display_state: DisplayedState::Info,
            default_layer: 0,
            previous_menu: Multi::Zero,
            previous_item: Multi::Zero,
        }
    }

    fn up(&mut self) -> (r: Multi<Message>)
        ensures
            *final(self) == (Menu {
                current_item: if old(self).current_item > 0 {
                    (old(self).current_item - 1) as usize
                } else {
                    0
                },
                ..*old(self)
            }),
            r@.len() == 0,
    {
        if self.current_item > 0 {
            self.current_item -= 1;
        }
        Multi::Zero
    }

    fn down(&mut self) -> (r: Multi<Message>)
        requires
            old(self).wf(),
        ensures
            *final(self) == (Menu {
                current_item: if old(self).current_item < menu_len(old(self).current_menu as int) {
                    (old(self).current_item + 1) as usize
                } else {
                    old(self).current_item
                },
                ..*old(self)
            }),
            r@.len() == 0,
    {
        if self.current_item < menu_len_of(self.current_menu) {
            self.current_item += 1;
        }
        Multi::Zero
    }

    /// The dial message of the entry under the cursor, if it is a dial.
    fn dial(&self, right: bool) -> (r: Multi<Message>)
        requires
            self.wf(),
        ensures
            r@ == dial_messages(*self, right),
    {
        if self.current_item == 0 {
            return Multi::Zero;
        }
        match item_kind_of(self.current_menu, self.current_item - 1) {
            ItemKind::Dial(left, r) => {
                if right {
                    Multi::One(r)
                } else {
                    Multi::One(left)
                }
            },
            _ => Multi::Zero,
        }
    }

    fn close(&mut self) -> (r: Multi<Message>)
        ensures
            final(self).is_closed_from(*old(self)),
            r@ == close_messages(old(self).default_layer, old(self).last_display_state),
    {
        self.previous_menu = Multi::Zero;
        self.previous_item = Multi::Zero;
        self.current_menu = 0;
        self.current_item = 0;
        Multi::Three(
            Message::SetDefaultLayer(self.default_layer),
            Message::DisplaySelect(self.last_display_state),
            Message::SecondaryMenu(SecondaryMenuAction::Close),
        )
    }

    fn select(&mut self) -> (r: Multi<Message>)
        requires
            old(self).wf(),
        ensures
            final(self).wf(),
            select_step(*old(self), *final(self), r@),
    {
        if self.current_item == 0 {
            if self.current_menu == 0 {
                return self.close();
            }
            let m = match self.previous_menu.take() {
                Some(m) => m,
                None => 0,
            };
            let i = match self.previous_item.take() {
                Some(i) => i,
                None => 0,
            };
            let len = menu_len_of(m);
            self.current_menu = m;
            self.current_item = if i < len {
                i
            } else {
                len
            };
            return Multi::Zero;
        }
        let kind = item_kind_of(self.current_menu, self.current_item - 1);
        match kind {
            ItemKind::Item(message) => {
                let closing = self.close();
                let r = closing.add(Multi::One(message));
                assert(r@ =~= close_messages(old(self).default_layer, old(self).last_display_state).push(message));
                r
            },
            ItemKind::SubMenu(i) => {
                self.previous_menu.push(self.current_menu);
                self.previous_item.push(self.current_item);
                self.current_menu = i;
                self.current_item = 0;
                Multi::Zero
            },
            ItemKind::SecondaryMenu(i, secondary, message) => {
                self.previous_menu.push(self.current_menu);
                self.current_menu = i;
                self.current_item = 0;
                Multi::Two(Message::SecondaryMenu(SecondaryMenuAction::Open(secondary)), message)
            },
            ItemKind::Dial(..) => Multi::Zero,
        }
    }

    fn last_display_state(&mut self, s: DisplayedState) -> (r: Multi<Message>)
        ensures
            *final(self) == (Menu {
                last_display_state: if s != DisplayedState::Menu {
                    s
                } else {
                    old(self).last_display_state
                },
                ..*old(self)
            }),
            r@.len() == 0,
    {
        if s != DisplayedState::Menu {
            self.last_display_state = s;
        }
        Multi::Zero
    }

    /// Reacts to one message. The cursor always stays on "back" or on an
    /// entry of the menu it is in.
    pub fn handle_event(&mut self, message: Message) -> (r: Multi<Message>)
        requires
            old(self).wf(),
        ensures
            final(self).wf(),
            menu_step(*old(self), message, *final(self), r@),
    {
        match message {
            Message::Menu(MenuAction::Up) => self.up(),
            Message::Menu(MenuAction::Down) => self.down(),
            Message::Menu(MenuAction::Left) => self.dial(false),
            Message::Menu(MenuAction::Right) => self.dial(true),
            Message::Menu(MenuAction::Select) => self.select(),
            Message::Menu(MenuAction::Close) => self.close(),
            Message::DisplaySelect(s) => self.last_display_state(s),
            Message::SecondaryMenu(SecondaryMenuAction::Open(s)) => {
                self.last_display_state(s);
                Multi::One(Message::DisplaySelect(s))
            },
            Message::SecondaryMenu(SecondaryMenuAction::Close) => {
                self.close();
                Multi::Zero
            },
            Message::SetDefaultLayer(l) => {
                self.default_layer = l;
                Multi::Zero
            },
            _ => Multi::Zero,
        }
    }
}

/// What left (or right) sends: the dial's message where the cursor is on a
/// dial, else nothing.
pub open spec fn dial_messages(m: Menu, right: bool) -> Seq<Message> {
    if m.current_item == 0 {
        Seq::empty()
    } else {
        match item_kind(m.current_menu as int, m.current_item - 1) {
            ItemKind::Dial(l, r) => if right {
                seq![r]
            } else {
                seq![l]
            },
            _ => Seq::empty(),
        }
    }
}

/// One press of "select", from `m` to `n`, sending `out`.
pub open spec fn select_step(m: Menu, n: Menu, out: Seq<Message>) -> bool {
    if m.current_item == 0 {
        if m.current_menu == 0 {
            n.is_closed_from(m) && out == close_messages(m.default_layer, m.last_display_state)
        } else {
            // back: one level up, to where the cursor was
            &&& n.current_menu == top_or_zero(m.previous_menu@)
            &&& n.current_item == if top_or_zero(m.previous_item@) < menu_len(n.current_menu as int) {
                top_or_zero(m.previous_item@) as int
            } else {
                menu_len(n.current_menu as int)
            }
            &&& n.previous_menu@ == popped(m.previous_menu@)
            &&& n.previous_item@ == popped(m.previous_item@)
            &&& n.last_display_state == m.last_display_state
            &&& n.default_layer == m.default_layer
            &&& out.len() == 0
        }
    } else {
        match item_kind(m.current_menu as int, m.current_item - 1) {
            ItemKind::Item(msg) => n.is_closed_from(m) && out == close_messages(
                m.default_layer,
                m.last_display_state,
            ).push(msg),
            ItemKind::SubMenu(i) => {
                &&& n == (Menu { current_menu: i, current_item: 0, ..n })
                &&& n.previous_menu@ == pushed(m.previous_menu@, m.current_menu)
                &&& n.previous_item@ == pushed(m.previous_item@, m.current_item)
                &&& n.last_display_state == m.last_display_state
                &&& n.default_layer == m.default_layer
                &&& out.len() == 0
            },
            ItemKind::SecondaryMenu(i, page, msg) => {
                &&& n.current_menu == i
                &&& n.current_item == 0
                &&& n.previous_menu@ == pushed(m.previous_menu@, m.current_menu)
                &&& n.previous_item == m.previous_item
                &&& n.last_display_state == m.last_display_state
                &&& n.default_layer == m.default_layer
                &&& out == seq![Message::SecondaryMenu(SecondaryMenuAction::Open(page)), msg]
            },
            ItemKind::Dial(..) => n == m && out.len() == 0,
        }
    }
}

/// The reaction of the menu `m` to `msg`: it becomes `n` and sends `out`.
pub open spec fn menu_step(m: Menu, msg: Message, n: Menu, out: Seq<Message>) -> bool {
    match msg {
        Message::Menu(MenuAction::Up) => n == (Menu {
            current_item: if m.current_item > 0 {
                (m.current_item - 1) as usize
            } else {
                0
            },
            ..m
        }) && out.len() == 0,
        Message::Menu(MenuAction::Down) => n == (Menu {
            current_item: if m.current_item < menu_len(m.current_menu as int) {
                (m.current_item + 1) as usize
            } else {
                m.current_item
            },
            ..m
        }) && out.len() == 0,
        Message::Menu(MenuAction::Left) => n == m && out == dial_messages(m, false),
        Message::Menu(MenuAction::Right) => n == m && out == dial_messages(m, true),
        Message::Menu(MenuAction::Select) => select_step(m, n, out),
        Message::Menu(MenuAction::Close) => n.is_closed_from(m) && out == close_messages(
            m.default_layer,
            m.last_display_state,
        ),
        Message::DisplaySelect(s) => n == (Menu {
            last_display_state: if s != DisplayedState::Menu {
                s
            } else {
                m.last_display_state
            },
            ..m
        }) && out.len() == 0,
        Message::SecondaryMenu(SecondaryMenuAction::Open(s)) => n == (Menu {
            last_display_state: if s != DisplayedState::Menu {
                s
            } else {
                m.last_display_state
            },
            ..m
        }) && out == seq![Message::DisplaySelect(s)],
        Message::SecondaryMenu(SecondaryMenuAction::Close) => n.is_closed_from(m) && out.len()
            == 0,
        Message::SetDefaultLayer(l) => n == (Menu { default_layer: l, ..m }) && out.len() == 0,
        _ => n == m && out.len() == 0,
    }
}

/// One press of up (`down` false) or down (`down` true): the cursor moves
/// one entry, stopping at "back" and at the last entry.
pub open spec fn nav_step(m: Menu, down: bool) -> Menu {
    if down {
        Menu {
            current_item: if m.current_item < menu_len(m.current_menu as int) {
                (m.current_item + 1) as usize
            } else {
                m.current_item
            },
            ..m
        }
    } else {
        Menu {
            current_item: if m.current_item > 0 {
                (m.current_item - 1) as usize
            } else {
                0
            },
            ..m
        }
    }
}

/// The menu after the presses of up and down in `moves`, in order.
pub open spec fn navigate(m: Menu, moves: Seq<bool>) -> Menu
    decreases moves.len(),
{
    if moves.len() == 0 {
        m
    } else {
        navigate(nav_step(m, moves[0]), moves.drop_first())
    }
}

/// Up and down are the steps `nav_step` describes: they send nothing.
pub proof fn lemma_up_down_step(m: Menu, down: bool, n: Menu, out: Seq<Message>)
    requires
        menu_step(
            m,
            Message::Menu(
                if down {
                    MenuAction::Down
                } else {
                    MenuAction::Up
                },
            ),
            n,
            out,
        ),
    ensures
        n == nav_step(m, down),
        out.len() == 0,
{
}

/// Whatever presses of up and down follow one another, the cursor stays on
/// "back" or on an entry of the menu, and the menu stays the same.
pub proof fn lemma_navigation_in_bounds(m: Menu, moves: Seq<bool>)
    requires
        m.wf(),
    ensures
        navigate(m, moves).wf(),
        navigate(m, moves).current_menu == m.current_menu,
        0 <= navigate(m, moves).current_item <= menu_len(m.current_menu as int),
    decreases moves.len(),
{
    if moves.len() > 0 {
        lemma_navigation_in_bounds(nav_step(m, moves[0]), moves.drop_first());
    }
}

} // verus!
