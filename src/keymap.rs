use vstd::prelude::*;

use crate::custom_action::PkbAction;
use crate::key_code::{A, B, BSLASH, BSPACE, C, COMMA, D, DELETE, DOT, DOWN, E, END, ENTER, EQUAL, ESCAPE, F, F1, F10, F11, F12, F2, F3, F4, F5, F6, F7, F8, F9, G, GRAVE, H, HOME, I, INSERT, J, K, KB0, KB1, KB2, KB3, KB4, KB5, KB6, KB7, KB8, KB9, L, LALT, LBRACKET, LCTRL, LEFT, LGUI, LSHIFT, M, MINUS, MUTE, N, O, P, PGDOWN, PGUP, Q, QUOTE, R, RALT, RBRACKET, RCTRL, RIGHT, RSHIFT, S, SEMICOLON, SLASH, SPACE, T, TAB, U, UP, V, VOLDOWN, VOLUP, W, X, Y, Z};
use crate::layout::{KeyAction, LAYER_SIZE};
use crate::media_keys::MediaKey;

verus! {

/// The layers of the key map, in table order.
#[derive(Copy, Clone, Debug, PartialEq, Eq, Structural)]
pub enum Layer {
    Default,
    Numbers,
    Symbols,
    Navigation,
    Tabbing,
    Menu,
    CS,
    Missing,
}

/// The layer that a table index names; an index past the table is `Missing`.
pub open spec fn layer_of(i: usize) -> Layer {
    if i == 0 {
        Layer::Default
    } else if i == 1 {
        Layer::Numbers
    } else if i == 2 {
        Layer::Symbols
    } else if i == 3 {
        Layer::Navigation
    } else if i == 4 {
        Layer::Tabbing
    } else if i == 5 {
        Layer::Menu
    } else if i == 6 {
        Layer::CS
    } else {
        Layer::Missing
    }
}

/// The table index of a layer; `Missing` stands past the table.
pub open spec fn index_of(l: Layer) -> usize {
    match l {
        Layer::Default => 0,
        Layer::Numbers => 1,
        Layer::Symbols => 2,
        Layer::Navigation => 3,
        Layer::Tabbing => 4,
        Layer::Menu => 5,
        Layer::CS => 6,
        Layer::Missing => 8,
    }
}

/// The label shown for a layer.
pub open spec fn layer_name(l: Layer) -> Seq<char> {
    match l {
        Layer::Default => "default"@,
        Layer::Numbers => "numbers"@,
        Layer::Navigation => "nav"@,
        Layer::Symbols => "symbols"@,
        Layer::Tabbing => "tabbing"@,
        Layer::Menu => "menu"@,
        Layer::CS => "CS"@,
        Layer::Missing => "missing"@,
    }
}

/// The number of layers in the key map.
pub const LAYER_COUNT: usize = 7;

impl Default for Layer {
    fn default() -> (r: Layer)
        ensures
            r == Layer::Default,
    {
        Layer::Default
    }
}

impl From<usize> for Layer {
    fn from(i: usize) -> (r: Layer)
        ensures
            r == layer_of(i),
    {
        match i {
            0 => Layer::Default,
            1 => Layer::Numbers,
            2 => Layer::Symbols,
            3 => Layer::Navigation,
            4 => Layer::Tabbing,
            5 => Layer::Menu,
            6 => Layer::CS,
            _ => Layer::Missing,
        }
    }
}

impl vstd::std_specs::convert::FromSpecImpl<usize> for Layer {
    open spec fn obeys_from_spec() -> bool {
        true
    }

    open spec fn from_spec(i: usize) -> Layer {
        layer_of(i)
    }
}

impl From<Layer> for usize {
    fn from(layer: Layer) -> (r: usize)
        ensures
            r == index_of(layer),
    {
        match layer {
            Layer::Default => 0,
            Layer::Numbers => 1,
            Layer::Symbols => 2,
            Layer::Navigation => 3,
            Layer::Tabbing => 4,
            Layer::Menu => 5,
            Layer::CS => 6,
            Layer::Missing => 8,
        }
    }
}

impl vstd::std_specs::convert::FromSpecImpl<Layer> for usize {
    open spec fn obeys_from_spec() -> bool {
        true
    }

    open spec fn from_spec(l: Layer) -> usize {
        index_of(l)
    }
}

impl Layer {
    /// The label shown for this layer.
    pub fn name(self) -> (r: &'static str)
        ensures
            r@ == layer_name(self),
    {
        proof {
            reveal_strlit("default");
            reveal_strlit("numbers");
            reveal_strlit("nav");
            reveal_strlit("symbols");
            reveal_strlit("tabbing");
            reveal_strlit("menu");
            reveal_strlit("CS");
            reveal_strlit("missing");
        }
        match self {
            Layer::Default => "default",
            Layer::Numbers => "numbers",
            Layer::Navigation => "nav",
            Layer::Symbols => "symbols",
            Layer::Tabbing => "tabbing",
            Layer::Menu => "menu",
            Layer::CS => "CS",
            Layer::Missing => "missing",
        }
    }
}

/// Turning a layer into its index and back gives the same layer, for every
/// layer, `Missing` included.
pub proof fn lemma_layer_round_trip(l: Layer)
    ensures
        layer_of(index_of(l)) == l,
{
}

/// Every index of the table names a layer other than `Missing`, whose index
/// is the one it came from.
pub proof fn lemma_index_round_trip(i: usize)
    requires
        i < LAYER_COUNT,
    ensures
        layer_of(i) != Layer::Missing,
        index_of(layer_of(i)) == i,
{
}

fn push_row(v: &mut Vec<KeyAction>, row: [KeyAction; 14])
    ensures
        final(v)@ == old(v)@ + row@,
{
    let mut i: usize = 0;
    while i < 14
        invariant
            i <= 14,
            v@ == old(v)@ + row@.subrange(0, i as int),
        decreases 14 - i,
    {
        v.push(row[i]);
        i += 1;
        assert(v@ =~= old(v)@ + row@.subrange(0, i as int));
    }
    assert(row@.subrange(0, 14) =~= row@);
}

/// The key map: seven layers of four rows of fourteen keys, each layer
/// after the other, row by row.
pub fn layers() -> (r: Vec<KeyAction>)
    ensures
        r@.len() == LAYER_COUNT * LAYER_SIZE,
{
    let mut v: Vec<KeyAction> = Vec::new();
    // Default
    push_row(&mut v, [
        KeyAction::Key(TAB),
        KeyAction::Key(Q),
        KeyAction::Key(W),
        KeyAction::Key(F),
        KeyAction::Key(P),
        KeyAction::Key(B),
        KeyAction::Key(ESCAPE),
        KeyAction::Key(INSERT),
        KeyAction::Key(J),
        KeyAction::Key(L),
        KeyAction::Key(U),
        KeyAction::Key(Y),
        KeyAction::Key(QUOTE),
        KeyAction::Key(SEMICOLON),
    ]);
    push_row(&mut v, [
        KeyAction::Key(LCTRL),
        KeyAction::Key(A),
        KeyAction::Key(R),
        KeyAction::Key(S),
        KeyAction::Key(T),
        KeyAction::Key(G),
        KeyAction::CustomSwitch(PkbAction::MenuOpen, 5, 0),
        KeyAction::Key(DELETE),
        KeyAction::Key(M),
        KeyAction::Key(N),
        KeyAction::Key(E),
        KeyAction::Key(I),
        KeyAction::Key(O),
        KeyAction::Key(BSLASH),
    ]);
    push_row(&mut v, [
        KeyAction::Key(LSHIFT),
        KeyAction::Key(Z),
        KeyAction::Key(X),
        KeyAction::Key(C),
        KeyAction::Key(D),
        KeyAction::Key(V),
        KeyAction::Key(MUTE),
        KeyAction::Custom(PkbAction::MediaKey(MediaKey::PlayPause)),
        KeyAction::Key(K),
        KeyAction::Key(H),
        KeyAction::Key(COMMA),
        KeyAction::Key(DOT),
        KeyAction::Key(SLASH),
        KeyAction::Key(RSHIFT),
    ]);
    push_row(&mut v, [
        KeyAction::Key(VOLUP),
        KeyAction::Key(VOLDOWN),
        KeyAction::Key(LALT),
        KeyAction::Key(LGUI),
        KeyAction::Layer(1),
        KeyAction::Key(ENTER),
        KeyAction::Key(LSHIFT),
        KeyAction::Key(RSHIFT),
        KeyAction::Key(SPACE),
        KeyAction::Layer(2),
        KeyAction::Key(RCTRL),
        KeyAction::Key(RALT),
        KeyAction::Custom(PkbAction::MediaKey(MediaKey::PrevTrack)),
        KeyAction::Custom(PkbAction::MediaKey(MediaKey::NextTrack)),
    ]);
    // Numbers
    push_row(&mut v, [
        KeyAction::Trans,
        KeyAction::Key(F1),
        KeyAction::Key(F2),
        KeyAction::Key(F3),
        KeyAction::Key(F4),
        KeyAction::Key(F5),
        KeyAction::Key(F6),
        KeyAction::Key(F7),
        KeyAction::Key(F8),
        KeyAction::Key(F9),
        KeyAction::Key(F10),
        KeyAction::Key(F11),
        KeyAction::Key(F12),
        KeyAction::Trans,
    ]);
    push_row(&mut v, [
        KeyAction::Trans,
        KeyAction::Key(KB1),
        KeyAction::Key(KB2),
        KeyAction::Key(KB3),
        KeyAction::Key(KB4),
        KeyAction::Key(KB5),
        KeyAction::NoOp,
        KeyAction::NoOp,
        KeyAction::Key(KB6),
        KeyAction::Key(KB7),
        KeyAction::Key(KB8),
        KeyAction::Key(KB9),
        KeyAction::Key(KB0),
        KeyAction::Trans,
    ]);
    push_row(&mut v, [
        KeyAction::Trans,
        KeyAction::Key(GRAVE),
        KeyAction::NoOp,
        KeyAction::NoOp,
        KeyAction::Key(MINUS),
        KeyAction::Key(EQUAL),
        KeyAction::Trans,
        KeyAction::Trans,
        KeyAction::NoOp,
        KeyAction::Key(LBRACKET),
        KeyAction::Key(RBRACKET),
        KeyAction::NoOp,
        KeyAction::NoOp,
        KeyAction::Trans,
    ]);
    push_row(&mut v, [
        KeyAction::Trans,
        KeyAction::Trans,
        KeyAction::Trans,
        KeyAction::Trans,
        KeyAction::Trans,
        KeyAction::Trans,
        KeyAction::Trans,
        KeyAction::Trans,
        KeyAction::Key(BSPACE),
        KeyAction::Trans,
        KeyAction::Trans,
        KeyAction::Trans,
        KeyAction::Trans,
        KeyAction::Trans,
    ]);
    // Symbols
    push_row(&mut v, [
        KeyAction::Trans,
        KeyAction::NoOp,
        KeyAction::NoOp,
        KeyAction::Keys(LALT, KB3),
        KeyAction::Keys(LSHIFT, QUOTE),
        KeyAction::NoOp,
        KeyAction::NoOp,
        KeyAction::NoOp,
        KeyAction::NoOp,
        KeyAction::Key(QUOTE),
        KeyAction::Keys(LSHIFT, GRAVE),
        KeyAction::NoOp,
        KeyAction::NoOp,
        KeyAction::NoOp,
    ]);
    push_row(&mut v, [
        KeyAction::Trans,
        KeyAction::NoOp,
        KeyAction::Key(LBRACKET),
        KeyAction::Keys(LSHIFT, KB9),
        KeyAction::Keys(LSHIFT, LBRACKET),
        KeyAction::Keys(LSHIFT, SEMICOLON),
        KeyAction::NoOp,
        KeyAction::NoOp,
        KeyAction::Key(SEMICOLON),
        KeyAction::Keys(LSHIFT, RBRACKET),
        KeyAction::Keys(LSHIFT, KB0),
        KeyAction::Key(RBRACKET),
        KeyAction::NoOp,
        KeyAction::NoOp,
    ]);
    push_row(&mut v, [
        KeyAction::Trans,
        KeyAction::NoOp,
        KeyAction::NoOp,
        KeyAction::Key(MINUS),
        KeyAction::Keys(LSHIFT, MINUS),
        KeyAction::NoOp,
        KeyAction::NoOp,
        KeyAction::NoOp,
        KeyAction::NoOp,
        KeyAction::Key(EQUAL),
        KeyAction::Keys(LSHIFT, EQUAL),
        KeyAction::NoOp,
        KeyAction::NoOp,
        KeyAction::NoOp,
    ]);
    push_row(&mut v, [
        KeyAction::Trans,
        KeyAction::Trans,
        KeyAction::Trans,
        KeyAction::Trans,
        KeyAction::Trans,
        KeyAction::Trans,
        KeyAction::Trans,
        KeyAction::Trans,
        KeyAction::Trans,
        KeyAction::Trans,
        KeyAction::Trans,
        KeyAction::Trans,
        KeyAction::Trans,
        KeyAction::Trans,
    ]);
    // Navigation
    push_row(&mut v, [
        KeyAction::Trans,
        KeyAction::NoOp,
        KeyAction::NoOp,
        KeyAction::NoOp,
        KeyAction::NoOp,
        KeyAction::NoOp,
        KeyAction::NoOp,
        KeyAction::NoOp,
        KeyAction::NoOp,
        KeyAction::NoOp,
        KeyAction::Key(UP),
        KeyAction::NoOp,
        KeyAction::NoOp,
        KeyAction::NoOp,
    ]);
    push_row(&mut v, [
        KeyAction::Trans,
        KeyAction::Key(HOME),
        KeyAction::Key(PGUP),
        KeyAction::Key(PGDOWN),
        KeyAction::Key(END),
        KeyAction::NoOp,
        KeyAction::NoOp,
        KeyAction::NoOp,
        KeyAction::NoOp,
        KeyAction::Key(LEFT),
        KeyAction::Key(DOWN),
        KeyAction::Key(RIGHT),
        KeyAction::NoOp,
        KeyAction::NoOp,
    ]);
    push_row(&mut v, [
        KeyAction::Trans,
        KeyAction::NoOp,
        KeyAction::NoOp,
        KeyAction::NoOp,
        KeyAction::NoOp,
        KeyAction::NoOp,
        KeyAction::CustomSwitch(PkbAction::HoldCtrl, 4, TAB),
        KeyAction::CustomSwitch(PkbAction::HoldCmd, 4, TAB),
        KeyAction::NoOp,
        KeyAction::NoOp,
        KeyAction::NoOp,
        KeyAction::NoOp,
        KeyAction::NoOp,
        KeyAction::NoOp,
    ]);
    push_row(&mut v, [
        KeyAction::Trans,
        KeyAction::Trans,
        KeyAction::Trans,
        KeyAction::Trans,
        KeyAction::Trans,
        KeyAction::Trans,
        KeyAction::Trans,
        KeyAction::Trans,
        KeyAction::Trans,
        KeyAction::Trans,
        KeyAction::Trans,
        KeyAction::Trans,
        KeyAction::Trans,
        KeyAction::Trans,
    ]);
    // Tabbing
    push_row(&mut v, [
        KeyAction::Trans,
        KeyAction::NoOp,
        KeyAction::NoOp,
        KeyAction::NoOp,
        KeyAction::NoOp,
        KeyAction::NoOp,
        KeyAction::NoOp,
        KeyAction::NoOp,
        KeyAction::NoOp,
        KeyAction::NoOp,
        KeyAction::NoOp,
        KeyAction::NoOp,
        KeyAction::NoOp,
        KeyAction::NoOp,
    ]);
    push_row(&mut v, [
        KeyAction::Trans,
        KeyAction::NoOp,
        KeyAction::NoOp,
        KeyAction::NoOp,
        KeyAction::NoOp,
        KeyAction::NoOp,
        KeyAction::NoOp,
        KeyAction::NoOp,
        KeyAction::NoOp,
        KeyAction::NoOp,
        KeyAction::NoOp,
        KeyAction::NoOp,
        KeyAction::NoOp,
        KeyAction::NoOp,
    ]);
    push_row(&mut v, [
        KeyAction::Trans,
        KeyAction::NoOp,
        KeyAction::NoOp,
        KeyAction::NoOp,
        KeyAction::NoOp,
        KeyAction::NoOp,
        KeyAction::CustomSwitch(PkbAction::ReleaseCtrl, 0, 0),
        KeyAction::CustomSwitch(PkbAction::ReleaseCmd, 0, 0),
        KeyAction::NoOp,
        KeyAction::NoOp,
        KeyAction::NoOp,
        KeyAction::NoOp,
        KeyAction::NoOp,
        KeyAction::NoOp,
    ]);
    push_row(&mut v, [
        KeyAction::Key(TAB),
        KeyAction::Keys(LSHIFT, TAB),
        KeyAction::Trans,
        KeyAction::Trans,
        KeyAction::Trans,
        KeyAction::Trans,
        KeyAction::Trans,
        KeyAction::Trans,
        KeyAction::Trans,
        KeyAction::Trans,
        KeyAction::Trans,
        KeyAction::Trans,
        KeyAction::Key(LEFT),
        KeyAction::Key(RIGHT),
    ]);
    // Menu
    push_row(&mut v, [
        KeyAction::Trans,
        KeyAction::NoOp,
        KeyAction::NoOp,
        KeyAction::NoOp,
        KeyAction::NoOp,
        KeyAction::NoOp,
        KeyAction::NoOp,
        KeyAction::NoOp,
        KeyAction::NoOp,
        KeyAction::NoOp,
        KeyAction::NoOp,
        KeyAction::NoOp,
        KeyAction::NoOp,
        KeyAction::NoOp,
    ]);
    push_row(&mut v, [
        KeyAction::Trans,
        KeyAction::NoOp,
        KeyAction::NoOp,
        KeyAction::NoOp,
        KeyAction::NoOp,
        KeyAction::NoOp,
        KeyAction::CustomSwitch(PkbAction::MenuClose, 0, 0),
        KeyAction::NoOp,
        KeyAction::NoOp,
        KeyAction::NoOp,
        KeyAction::NoOp,
        KeyAction::NoOp,
        KeyAction::NoOp,
        KeyAction::NoOp,
    ]);
    push_row(&mut v, [
        KeyAction::Trans,
        KeyAction::NoOp,
        KeyAction::NoOp,
        KeyAction::NoOp,
        KeyAction::NoOp,
        KeyAction::NoOp,
        KeyAction::Custom(PkbAction::MenuSelect),
        KeyAction::NoOp,
        KeyAction::NoOp,
        KeyAction::NoOp,
        KeyAction::NoOp,
        KeyAction::NoOp,
        KeyAction::NoOp,
        KeyAction::NoOp,
    ]);
    push_row(&mut v, [
        KeyAction::Custom(PkbAction::MenuDown),
        KeyAction::Custom(PkbAction::MenuUp),
        KeyAction::Trans,
        KeyAction::Trans,
        KeyAction::Trans,
        KeyAction::Trans,
        KeyAction::Trans,
        KeyAction::Trans,
        KeyAction::Trans,
        KeyAction::Trans,
        KeyAction::Trans,
        KeyAction::Trans,
        KeyAction::Custom(PkbAction::MenuLeft),
        KeyAction::Custom(PkbAction::MenuRight),
    ]);
    // CS
    push_row(&mut v, [
        KeyAction::Key(TAB),
        KeyAction::Key(F),
        KeyAction::Key(KB3),
        KeyAction::Key(W),
        KeyAction::Key(E),
        KeyAction::Key(R),
        KeyAction::Key(ESCAPE),
        KeyAction::NoOp,
        KeyAction::NoOp,
        KeyAction::NoOp,
        KeyAction::NoOp,
        KeyAction::NoOp,
        KeyAction::NoOp,
        KeyAction::NoOp,
    ]);
    push_row(&mut v, [
        KeyAction::Trans,
        KeyAction::Key(LSHIFT),
        KeyAction::Key(A),
        KeyAction::Key(S),
        KeyAction::Key(D),
        KeyAction::Key(G),
        KeyAction::CustomSwitch(PkbAction::MenuOpen, 5, 0),
        KeyAction::NoOp,
        KeyAction::NoOp,
        KeyAction::NoOp,
        KeyAction::NoOp,
        KeyAction::NoOp,
        KeyAction::NoOp,
        KeyAction::NoOp,
    ]);
    push_row(&mut v, [
        KeyAction::Trans,
        KeyAction::Key(LCTRL),
        KeyAction::Key(X),
        KeyAction::Key(T),
        KeyAction::Key(KB5),
        KeyAction::Key(B),
        KeyAction::Key(MUTE),
        KeyAction::NoOp,
        KeyAction::NoOp,
        KeyAction::NoOp,
        KeyAction::NoOp,
        KeyAction::NoOp,
        KeyAction::NoOp,
        KeyAction::NoOp,
    ]);
    push_row(&mut v, [
        KeyAction::Key(VOLUP),
        KeyAction::Key(VOLDOWN),
        KeyAction::Key(KB1),
        KeyAction::Key(KB2),
        KeyAction::Key(SPACE),
        KeyAction::Key(KB6),
        KeyAction::Key(KB7),
        KeyAction::Trans,
        KeyAction::Trans,
        KeyAction::Trans,
        KeyAction::Trans,
        KeyAction::Trans,
        KeyAction::NoOp,
        KeyAction::NoOp,
    ]);
    v
}

} // verus!
