use vstd::prelude::*;

use crate::keymap::Layer;
use crate::leds::{Action, Mode};
use crate::leds::solid::Solid;
use crate::menu::{MenuAction, SecondaryMenuAction};
use crate::message::{DisplayedState, Message};
use crate::varint::{
    decode_varint,
    encode_varint,
    lemma_starts_with_cons,
    lemma_varint_len,
    lemma_varint_unique,
    starts_with,
    varint,
};

verus! {

// The wire format: each value is the index of its variant, in declaration
// order, followed by the fields of the variant in order. A `bool` is one
// byte 0 or 1, a `u8` is itself, a `usize` is LEB128.

pub open spec fn layer_tag(l: Layer) -> u8 {
    match l {
        Layer::Default => 0,
        Layer::Numbers => 1,
        Layer::Symbols => 2,
        Layer::Navigation => 3,
        Layer::Tabbing => 4,
        Layer::Menu => 5,
        Layer::CS => 6,
        Layer::Missing => 7,
    }
}

pub open spec fn page_tag(d: DisplayedState) -> u8 {
    match d {
        DisplayedState::Info => 0,
        DisplayedState::Menu => 1,
        DisplayedState::Bongo => 2,
        DisplayedState::Leds => 3,
    }
}

pub open spec fn menu_action_tag(a: MenuAction) -> u8 {
    match a {
        MenuAction::Up => 0,
        MenuAction::Down => 1,
        MenuAction::Select => 2,
        MenuAction::Close => 3,
        MenuAction::Left => 4,
        MenuAction::Right => 5,
    }
}

pub open spec fn mode_tag(m: Mode) -> u8 {
    match m {
        Mode::Off => 0,
        Mode::Wheel => 1,
        Mode::Solid => 2,
        Mode::Fade => 3,
    }
}

pub open spec fn enc_secondary_menu(s: SecondaryMenuAction) -> Seq<u8> {
    match s {
        SecondaryMenuAction::Open(d) => seq![0u8, page_tag(d)],
        SecondaryMenuAction::Close => seq![1u8],
    }
}

pub open spec fn enc_action(a: Action) -> Seq<u8> {
    match a {
        Action::SetMode(m) => seq![0u8, mode_tag(m)],
        Action::IncrementRed => seq![1u8],
        Action::DecrementRed => seq![2u8],
        Action::IncrementGreen => seq![3u8],
        Action::DecrementGreen => seq![4u8],
        Action::IncrementBlue => seq![5u8],
        Action::DecrementBlue => seq![6u8],
        Action::Solid(s) => seq![7u8, s.0, s.1, s.2],
        Action::Update => seq![8u8],
    }
}

/// The index of the message's variant.
pub open spec fn tag(m: Message) -> u8 {
    match m {
        Message::LateInit => 0,
        Message::InitTimers => 1,
        Message::UsbConnected(_) => 2,
        Message::YouArePrimary => 3,
        Message::YouAreSecondary => 4,
        Message::UpdateDisplay => 5,
        Message::Tick => 6,
        Message::MatrixKeyPress(_, _) => 7,
        Message::MatrixKeyRelease(_, _) => 8,
        Message::SecondaryKeyPress(_, _) => 9,
        Message::SecondaryKeyRelease(_, _) => 10,
        Message::Ping => 11,
        Message::Pong => 12,
        Message::CmdHeld => 13,
        Message::CmdReleased => 14,
        Message::CtrlHeld => 15,
        Message::CtrlReleased => 16,
        Message::CurrentLayer(_) => 17,
        Message::SecondaryCurrentLayer(_) => 18,
        Message::DisplaySelect(_) => 19,
        Message::SecondaryDisplaySelect(_) => 20,
        Message::Menu(_) => 21,
        Message::SecondaryMenu(_) => 22,
        Message::SetDefaultLayer(_) => 23,
        Message::Bongo => 24,
        Message::LED(_) => 25,
        Message::SecondaryLED(_) => 26,
        Message::Sleep => 27,
        Message::Wake => 28,
    }
}

/// The fields of the message, encoded.
pub open spec fn payload(m: Message) -> Seq<u8> {
    match m {
        Message::UsbConnected(v) => seq![if v { 1u8 } else { 0u8 }],
        Message::MatrixKeyPress(i, j) => seq![i, j],
        Message::MatrixKeyRelease(i, j) => seq![i, j],
        Message::SecondaryKeyPress(i, j) => seq![i, j],
        Message::SecondaryKeyRelease(i, j) => seq![i, j],
        Message::CurrentLayer(l) => seq![layer_tag(l)],
        Message::SecondaryCurrentLayer(l) => seq![layer_tag(l)],
        Message::DisplaySelect(d) => seq![page_tag(d)],
        Message::SecondaryDisplaySelect(d) => seq![page_tag(d)],
        Message::Menu(a) => seq![menu_action_tag(a)],
        Message::SecondaryMenu(s) => enc_secondary_menu(s),
        Message::SetDefaultLayer(u) => varint(u as nat),
        Message::LED(a) => enc_action(a),
        Message::SecondaryLED(a) => enc_action(a),
        _ => seq![],
    }
}

/// The bytes of a message on the serial link.
pub open spec fn enc(m: Message) -> Seq<u8> {
    seq![tag(m)] + payload(m)
}

proof fn lemma_starts_with_index(b: Seq<u8>, p: Seq<u8>)
    ensures
        starts_with(b, p) <==> (p.len() <= b.len() && forall|k: int|
            0 <= k < p.len() ==> b[k] == #[trigger] p[k]),
{
    if p.len() <= b.len() && forall|k: int| 0 <= k < p.len() ==> b[k] == #[trigger] p[k] {
        assert(b.subrange(0, p.len() as int) =~= p);
    }
    if starts_with(b, p) {
        assert forall|k: int| 0 <= k < p.len() implies b[k] == #[trigger] p[k] by {
            assert(b.subrange(0, p.len() as int)[k] == b[k]);
        }
    }
}

fn layer_from_tag(t: u8) -> (r: Option<Layer>)
    ensures
        match r {
            Some(l) => layer_tag(l) == t,
            None => forall|l: Layer| layer_tag(l) != t,
        },
{
    match t {
        0 => Some(Layer::Default),
        1 => Some(Layer::Numbers),
        2 => Some(Layer::Symbols),
        3 => Some(Layer::Navigation),
        4 => Some(Layer::Tabbing),
        5 => Some(Layer::Menu),
        6 => Some(Layer::CS),
        7 => Some(Layer::Missing),
        _ => None,
    }
}

fn page_from_tag(t: u8) -> (r: Option<DisplayedState>)
    ensures
        match r {
            Some(d) => page_tag(d) == t,
            None => forall|d: DisplayedState| page_tag(d) != t,
        },
{
    match t {
        0 => Some(DisplayedState::Info),
        1 => Some(DisplayedState::Menu),
        2 => Some(DisplayedState::Bongo),
        3 => Some(DisplayedState::Leds),
        _ => None,
    }
}

fn menu_action_from_tag(t: u8) -> (r: Option<MenuAction>)
    ensures
        match r {
            Some(a) => menu_action_tag(a) == t,
            None => forall|a: MenuAction| menu_action_tag(a) != t,
        },
{
    match t {
        0 => Some(MenuAction::Up),
        1 => Some(MenuAction::Down),
        2 => Some(MenuAction::Select),
        3 => Some(MenuAction::Close),
        4 => Some(MenuAction::Left),
        5 => Some(MenuAction::Right),
        _ => None,
    }
}

fn mode_from_tag(t: u8) -> (r: Option<Mode>)
    ensures
        match r {
            Some(m) => mode_tag(m) == t,
            None => forall|m: Mode| mode_tag(m) != t,
        },
{
    match t {
        0 => Some(Mode::Off),
        1 => Some(Mode::Wheel),
        2 => Some(Mode::Solid),
        3 => Some(Mode::Fade),
        _ => None,
    }
}

fn encode_secondary_menu(out: &mut Vec<u8>, s: SecondaryMenuAction)
    ensures
        final(out)@ == old(out)@ + enc_secondary_menu(s),
{
    match s {
        SecondaryMenuAction::Open(d) => {
            out.push(0);
            out.push(
                match d {
                    DisplayedState::Info => 0,
                    DisplayedState::Menu => 1,
                    DisplayedState::Bongo => 2,
                    DisplayedState::Leds => 3,
                },
            );
        },
        SecondaryMenuAction::Close => out.push(1),
    }
    assert(out@ =~= old(out)@ + enc_secondary_menu(s));
}

fn encode_action(out: &mut Vec<u8>, a: Action)
    ensures
        final(out)@ == old(out)@ + enc_action(a),
{
    match a {
        Action::SetMode(m) => {
            out.push(0);
            out.push(
                match m {
                    Mode::Off => 0,
                    Mode::Wheel => 1,
                    Mode::Solid => 2,
                    Mode::Fade => 3,
                },
            );
        },
        Action::IncrementRed => out.push(1),
        Action::DecrementRed => out.push(2),
        Action::IncrementGreen => out.push(3),
        Action::DecrementGreen => out.push(4),
        Action::IncrementBlue => out.push(5),
        Action::DecrementBlue => out.push(6),
        Action::Solid(s) => {
            out.push(7);
            out.push(s.0);
            out.push(s.1);
            out.push(s.2);
        },
        Action::Update => out.push(8),
    }
    assert(out@ =~= old(out)@ + enc_action(a));
}

fn layer_byte(l: Layer) -> (r: u8)
    ensures
        r == layer_tag(l),
{
    match l {
        Layer::Default => 0,
        Layer::Numbers => 1,
        Layer::Symbols => 2,
        Layer::Navigation => 3,
        Layer::Tabbing => 4,
        Layer::Menu => 5,
        Layer::CS => 6,
        Layer::Missing => 7,
    }
}

fn page_byte(d: DisplayedState) -> (r: u8)
    ensures
        r == page_tag(d),
{
    match d {
        DisplayedState::Info => 0,
        DisplayedState::Menu => 1,
        DisplayedState::Bongo => 2,
        DisplayedState::Leds => 3,
    }
}

/// The bytes of `m` on the serial link.
pub fn encode(m: Message) -> (r: Vec<u8>)
    ensures
        r@ == enc(m),
{
    let mut out: Vec<u8> = Vec::new();
    match m {
        Message::LateInit => out.push(0),
        Message::InitTimers => out.push(1),
        Message::UsbConnected(v) => {
            out.push(2);
            out.push(
                if v {
                    1
                } else {
                    0
                },
            );
        },
        Message::YouArePrimary => out.push(3),
        Message::YouAreSecondary => out.push(4),
        Message::UpdateDisplay => out.push(5),
        Message::Tick => out.push(6),
        Message::MatrixKeyPress(i, j) => {
            out.push(7);
            out.push(i);
            out.push(j);
        },
        Message::MatrixKeyRelease(i, j) => {
            out.push(8);
            out.push(i);
            out.push(j);
        },
        Message::SecondaryKeyPress(i, j) => {
            out.push(9);
            out.push(i);
            out.push(j);
        },
        Message::SecondaryKeyRelease(i, j) => {
            out.push(10);
            out.push(i);
            out.push(j);
        },
        Message::Ping => out.push(11),
        Message::Pong => out.push(12),
        Message::CmdHeld => out.push(13),
        Message::CmdReleased => out.push(14),
        Message::CtrlHeld => out.push(15),
        Message::CtrlReleased => out.push(16),
        Message::CurrentLayer(l) => {
            out.push(17);
            out.push(layer_byte(l));
        },
        Message::SecondaryCurrentLayer(l) => {
            out.push(18);
            out.push(layer_byte(l));
        },
        Message::DisplaySelect(d) => {
            out.push(19);
            out.push(page_byte(d));
        },
        Message::SecondaryDisplaySelect(d) => {
            out.push(20);
            out.push(page_byte(d));
        },
        Message::Menu(a) => {
            out.push(21);
            out.push(
                match a {
                    MenuAction::Up => 0,
                    MenuAction::Down => 1,
                    MenuAction::Select => 2,
                    MenuAction::Close => 3,
                    MenuAction::Left => 4,
                    MenuAction::Right => 5,
                },
            );
        },
        Message::SecondaryMenu(s) => {
            out.push(22);
            encode_secondary_menu(&mut out, s);
        },
        Message::SetDefaultLayer(u) => {
            out.push(23);
            encode_varint(&mut out, u);
        },
        Message::Bongo => out.push(24),
        Message::LED(a) => {
            out.push(25);
            encode_action(&mut out, a);
        },
        Message::SecondaryLED(a) => {
            out.push(26);
            encode_action(&mut out, a);
        },
        Message::Sleep => out.push(27),
        Message::Wake => out.push(28),
    }
    assert(out@ =~= enc(m));
    out
}

proof fn lemma_split(b: Seq<u8>, m: Message)
    ensures
        starts_with(b, enc(m)) <==> (b.len() >= 1 && b[0] == tag(m) && starts_with(
            b.subrange(1, b.len() as int),
            payload(m),
        )),
        starts_with(b, enc(m)) ==> b.len() >= 1 + payload(m).len(),
        starts_with(b, enc(m)) && payload(m).len() > 0 ==> b[1] == payload(m)[0],
        starts_with(b, enc(m)) && payload(m).len() > 1 ==> b[2] == payload(m)[1],
        starts_with(b, enc(m)) && payload(m).len() > 2 ==> b[3] == payload(m)[2],
        starts_with(b, enc(m)) && payload(m).len() > 3 ==> b[4] == payload(m)[3],
{
    lemma_starts_with_cons(b, tag(m), payload(m));
    lemma_starts_with_index(b, enc(m));
    if starts_with(b, enc(m)) {
        assert(enc(m)[0] == tag(m));
        if payload(m).len() > 0 {
            assert(enc(m)[1] == payload(m)[0]);
        }
        if payload(m).len() > 1 {
            assert(enc(m)[2] == payload(m)[1]);
        }
        if payload(m).len() > 2 {
            assert(enc(m)[3] == payload(m)[2]);
        }
        if payload(m).len() > 3 {
            assert(enc(m)[4] == payload(m)[3]);
        }
    }
}

/// `b` begins with `p`, which has at most four bytes, each one given.
proof fn lemma_found(b: Seq<u8>, p: Seq<u8>)
    requires
        p.len() <= b.len(),
        p.len() <= 4,
        p.len() > 0 ==> b[0] == p[0],
        p.len() > 1 ==> b[1] == p[1],
        p.len() > 2 ==> b[2] == p[2],
        p.len() > 3 ==> b[3] == p[3],
    ensures
        starts_with(b, p),
{
    lemma_starts_with_index(b, p);
}

fn decode_action(b: &[u8], pos: usize) -> (r: Option<(Action, usize)>)
    requires
        pos <= b@.len(),
    ensures
        match r {
            Some((a, n)) => n == enc_action(a).len() && starts_with(
                b@.subrange(pos as int, b@.len() as int),
                enc_action(a),
            ),
            None => forall|a: Action|
                !starts_with(b@.subrange(pos as int, b@.len() as int), #[trigger] enc_action(a)),
        },
{
    let ghost rest = b@.subrange(pos as int, b@.len() as int);
    proof {
        assert forall|a: Action| #[trigger] starts_with(rest, enc_action(a)) <==> (enc_action(a).len() <= rest.len() && forall|k: int|
            0 <= k < enc_action(a).len() ==> rest[k] == #[trigger] enc_action(a)[k]) by {
            lemma_starts_with_index(rest, enc_action(a));
        }
    }
    if pos >= b.len() {
        proof {
            assert forall|a: Action| !starts_with(rest, #[trigger] enc_action(a)) by {
                assert(enc_action(a).len() >= 1);
            }
        }
        return None;
    }
    let t = b[pos];
    assert(rest[0] == t);
    let a = match t {
        0 => {
            if b.len() - pos < 2 {
                proof {
                    assert forall|a: Action| !starts_with(rest, #[trigger] enc_action(a)) by {
                        if starts_with(rest, enc_action(a)) {
                            assert(enc_action(a)[0] == rest[0]);
                        }
                    }
                }
                return None;
            }
            match mode_from_tag(b[pos + 1]) {
                Some(m) => Action::SetMode(m),
                None => {
                    proof {
                        assert forall|a: Action| !starts_with(rest, #[trigger] enc_action(a)) by {
                            if starts_with(rest, enc_action(a)) {
                                assert(enc_action(a)[0] == rest[0]);
                                assert(enc_action(a)[1] == rest[1]);
                                assert(rest[1] == b@[pos + 1]);
                            }
                        }
                    }
                    return None;
                },
            }
        },
        1 => Action::IncrementRed,
        2 => Action::DecrementRed,
        3 => Action::IncrementGreen,
        4 => Action::DecrementGreen,
        5 => Action::IncrementBlue,
        6 => Action::DecrementBlue,
        7 => {
            if b.len() - pos < 4 {
                proof {
                    assert forall|a: Action| !starts_with(rest, #[trigger] enc_action(a)) by {
                        if starts_with(rest, enc_action(a)) {
                            assert(enc_action(a)[0] == rest[0]);
                        }
                    }
                }
                return None;
            }
            Action::Solid(Solid(b[pos + 1], b[pos + 2], b[pos + 3]))
        },
        8 => Action::Update,
        _ => {
            proof {
                assert forall|a: Action| !starts_with(rest, #[trigger] enc_action(a)) by {
                    if starts_with(rest, enc_action(a)) {
                        assert(enc_action(a)[0] == rest[0]);
                    }
                }
            }
            return None;
        },
    };
    proof {
        lemma_found(rest, enc_action(a));
    }
    let n: usize = match a {
        Action::SetMode(_) => 2,
        Action::Solid(_) => 4,
        _ => 1,
    };
    Some((a, n))
}

fn decode_secondary_menu(b: &[u8], pos: usize) -> (r: Option<(SecondaryMenuAction, usize)>)
    requires
        pos <= b@.len(),
    ensures
        match r {
            Some((s, n)) => n == enc_secondary_menu(s).len() && starts_with(
                b@.subrange(pos as int, b@.len() as int),
                enc_secondary_menu(s),
            ),
            None => forall|s: SecondaryMenuAction|
                !starts_with(
                    b@.subrange(pos as int, b@.len() as int),
                    #[trigger] enc_secondary_menu(s),
                ),
        },
{
    let ghost rest = b@.subrange(pos as int, b@.len() as int);
    proof {
        assert forall|s: SecondaryMenuAction| #[trigger] starts_with(rest, enc_secondary_menu(s)) <==> (
        enc_secondary_menu(s).len() <= rest.len() && forall|k: int|
            0 <= k < enc_secondary_menu(s).len() ==> rest[k] == #[trigger] enc_secondary_menu(
                s,
            )[k]) by {
            lemma_starts_with_index(rest, enc_secondary_menu(s));
        }
    }
    if pos < b.len() && b[pos] == 1 {
        proof {
            lemma_found(rest, enc_secondary_menu(SecondaryMenuAction::Close));
        }
        return Some((SecondaryMenuAction::Close, 1));
    }
    if pos < b.len() && b.len() - pos >= 2 && b[pos] == 0 {
        match page_from_tag(b[pos + 1]) {
            Some(d) => {
                proof {
                    lemma_found(rest, enc_secondary_menu(SecondaryMenuAction::Open(d)));
                }
                return Some((SecondaryMenuAction::Open(d), 2));
            },
            None => {},
        }
    }
    proof {
        assert forall|s: SecondaryMenuAction| !starts_with(rest, #[trigger] enc_secondary_menu(s)) by {
            if starts_with(rest, enc_secondary_menu(s)) {
                assert(enc_secondary_menu(s)[0] == rest[0]);
                assert(rest[0] == b@[pos as int]);
                if s is Open {
                    assert(enc_secondary_menu(s)[1] == rest[1]);
                    assert(rest[1] == b@[pos + 1]);
                }
            }
        }
    }
    None
}

/// Reads one message from the start of `b`. The encoding is prefix-free, so
/// at most one message fits, and the result says which and how many bytes
/// it took.
pub fn decode(b: &[u8]) -> (r: Option<(Message, usize)>)
    ensures
        match r {
            Some((m, n)) => n == enc(m).len() && starts_with(b@, enc(m)),
            None => forall|m: Message| !starts_with(b@, #[trigger] enc(m)),
        },
{
    let ghost rest = b@.subrange(1, b@.len() as int);
    if b.len() == 0 {
        return None;
    }
    let t = b[0];
    proof {
        assert forall|m: Message| #[trigger] starts_with(b@, enc(m)) ==> tag(m) == t by {
            lemma_split(b@, m);
        }
    }
    let m = match t {
        0 => Message::LateInit,
        1 => Message::InitTimers,
        2 => {
            if b.len() < 2 || b[1] > 1 {
                proof {
                    assert forall|m: Message| !starts_with(b@, #[trigger] enc(m)) by {
                        lemma_split(b@, m);
                    }
                }
                return None;
            }
            Message::UsbConnected(b[1] == 1)
        },
        3 => Message::YouArePrimary,
        4 => Message::YouAreSecondary,
        5 => Message::UpdateDisplay,
        6 => Message::Tick,
        7..=10 => {
            if b.len() < 3 {
                proof {
                    assert forall|m: Message| !starts_with(b@, #[trigger] enc(m)) by {
                        lemma_split(b@, m);
                    }
                }
                return None;
            }
            let (i, j) = (b[1], b[2]);
            match t {
                7 => Message::MatrixKeyPress(i, j),
                8 => Message::MatrixKeyRelease(i, j),
                9 => Message::SecondaryKeyPress(i, j),
                _ => Message::SecondaryKeyRelease(i, j),
            }
        },
        11 => Message::Ping,
        12 => Message::Pong,
        13 => Message::CmdHeld,
        14 => Message::CmdReleased,
        15 => Message::CtrlHeld,
        16 => Message::CtrlReleased,
        17..=21 => {
            if b.len() < 2 {
                proof {
                    assert forall|m: Message| !starts_with(b@, #[trigger] enc(m)) by {
                        lemma_split(b@, m);
                    }
                }
                return None;
            }
            let field = b[1];
            let found = match t {
                17 => match layer_from_tag(field) {
                    Some(l) => Some(Message::CurrentLayer(l)),
                    None => None,
                },
                18 => match layer_from_tag(field) {
                    Some(l) => Some(Message::SecondaryCurrentLayer(l)),
                    None => None,
                },
                19 => match page_from_tag(field) {
                    Some(d) => Some(Message::DisplaySelect(d)),
                    None => None,
                },
                20 => match page_from_tag(field) {
                    Some(d) => Some(Message::SecondaryDisplaySelect(d)),
                    None => None,
                },
                _ => match menu_action_from_tag(field) {
                    Some(a) => Some(Message::Menu(a)),
                    None => None,
                },
            };
            match found {
                Some(m) => m,
                None => {
                    proof {
                        assert forall|m: Message| !starts_with(b@, #[trigger] enc(m)) by {
                            lemma_split(b@, m);
                        }
                    }
                    return None;
                },
            }
        },
        22 => match decode_secondary_menu(b, 1) {
            Some((s, n)) => {
                proof {
                    lemma_split(b@, Message::SecondaryMenu(s));
                }
                return Some((Message::SecondaryMenu(s), n + 1));
            },
            None => {
                proof {
                    assert forall|m: Message| !starts_with(b@, #[trigger] enc(m)) by {
                        lemma_split(b@, m);
                    }
                }
                return None;
            },
        },
        23 => match decode_varint(b, 1) {
            Some((u, n)) => {
                proof {
                    lemma_split(b@, Message::SetDefaultLayer(u));
                    lemma_varint_len(u as nat);
                }
                return Some((Message::SetDefaultLayer(u), n + 1));
            },
            None => {
                proof {
                    assert forall|m: Message| !starts_with(b@, #[trigger] enc(m)) by {
                        lemma_split(b@, m);
                    }
                }
                return None;
            },
        },
        24 => Message::Bongo,
        25 | 26 => match decode_action(b, 1) {
            Some((a, n)) => {
                let m = if t == 25 {
                    Message::LED(a)
                } else {
                    Message::SecondaryLED(a)
                };
                proof {
                    lemma_split(b@, m);
                }
                return Some((m, n + 1));
            },
            None => {
                proof {
                    assert forall|m: Message| !starts_with(b@, #[trigger] enc(m)) by {
                        lemma_split(b@, m);
                    }
                }
                return None;
            },
        },
        27 => Message::Sleep,
        28 => Message::Wake,
        _ => {
            return None;
        },
    };
    proof {
        lemma_split(b@, m);
        lemma_found(rest, payload(m));
    }
    let n: usize = match m {
        Message::UsbConnected(_)
        | Message::CurrentLayer(_)
        | Message::SecondaryCurrentLayer(_)
        | Message::DisplaySelect(_)
        | Message::SecondaryDisplaySelect(_)
        | Message::Menu(_) => 2,
        Message::MatrixKeyPress(_, _)
        | Message::MatrixKeyRelease(_, _)
        | Message::SecondaryKeyPress(_, _)
        | Message::SecondaryKeyRelease(_, _) => 3,
        _ => 1,
    };
    Some((m, n))
}

/// Two messages whose bytes both begin `s` are the same message.
pub proof fn lemma_unique(s: Seq<u8>, a: Message, b: Message)
    requires
        starts_with(s, enc(a)),
        starts_with(s, enc(b)),
    ensures
        a == b,
{
    lemma_split(s, a);
    lemma_split(s, b);
    let rest = s.subrange(1, s.len() as int);
    match (a, b) {
        (Message::SetDefaultLayer(u), Message::SetDefaultLayer(v)) => {
            lemma_varint_unique(rest, u as nat, v as nat);
        },
        (Message::SecondaryMenu(x), Message::SecondaryMenu(y)) => {
            lemma_starts_with_index(rest, enc_secondary_menu(x));
            lemma_starts_with_index(rest, enc_secondary_menu(y));
            assert(enc_secondary_menu(x)[0] == rest[0]);
            assert(enc_secondary_menu(y)[0] == rest[0]);
            if x is Open {
                assert(enc_secondary_menu(x)[1] == rest[1]);
                assert(enc_secondary_menu(y)[1] == rest[1]);
            }
        },
        (Message::LED(x), Message::LED(y)) => {
            lemma_action_unique(rest, x, y);
        },
        (Message::SecondaryLED(x), Message::SecondaryLED(y)) => {
            lemma_action_unique(rest, x, y);
        },
        _ => {},
    }
}

proof fn lemma_action_unique(s: Seq<u8>, x: Action, y: Action)
    requires
        starts_with(s, enc_action(x)),
        starts_with(s, enc_action(y)),
    ensures
        x == y,
{
    lemma_starts_with_index(s, enc_action(x));
    lemma_starts_with_index(s, enc_action(y));
    assert(enc_action(x)[0] == s[0]);
    assert(enc_action(y)[0] == s[0]);
    match (x, y) {
        (Action::SetMode(_), Action::SetMode(_)) => {
            assert(enc_action(x)[1] == s[1]);
            assert(enc_action(y)[1] == s[1]);
        },
        (Action::Solid(_), Action::Solid(_)) => {
            assert(enc_action(x)[1] == s[1]);
            assert(enc_action(y)[1] == s[1]);
            assert(enc_action(x)[2] == s[2]);
            assert(enc_action(y)[2] == s[2]);
            assert(enc_action(x)[3] == s[3]);
            assert(enc_action(y)[3] == s[3]);
        },
        _ => {},
    }
}

/// The bytes of any message, whatever follows them on the link, read back
/// as that message and no other: `decode` returns it with its length.
pub proof fn lemma_round_trip(m: Message, rest: Seq<u8>)
    ensures
        starts_with(enc(m) + rest, enc(m)),
        forall|found: Message| #[trigger] starts_with(enc(m) + rest, enc(found)) ==> found == m,
{
    let s = enc(m) + rest;
    assert(s.subrange(0, enc(m).len() as int) =~= enc(m));
    assert forall|found: Message| #[trigger] starts_with(s, enc(found)) implies found == m by {
        lemma_unique(s, m, found);
    }
}

/// The capacity of the receive buffer.
pub const RX_CAPACITY: usize = 64;

/// The sending end of the serial link: it turns messages into bytes.
pub struct TxComms {}

/// The receiving end of the serial link: it gathers bytes until they make
/// up a message.
pub struct RxComms {
    pub buffer: Vec<u8>,
}

/// Both ends of the serial link, empty.
pub fn create_comms() -> (r: (TxComms, RxComms))
    ensures
        r.1.buffer@.len() == 0,
{
    (TxComms {  }, RxComms { buffer: Vec::new() })
}

impl TxComms {
    /// The bytes to write for `message`.
    pub fn send_event(&mut self, message: Message) -> (r: Vec<u8>)
        ensures
            r@ == enc(message),
            *final(self) == *old(self),
    {
        encode(message)
    }
}

/// The bytes held after `byte` arrives at a buffer holding `buf`: a full
/// buffer starts afresh with it.
pub open spec fn gathered(buf: Seq<u8>, byte: u8) -> Seq<u8> {
    if buf.len() >= RX_CAPACITY {
        seq![byte]
    } else {
        buf.push(byte)
    }
}

/// The bytes `s` begin with the bytes of some message.
pub open spec fn holds_message(s: Seq<u8>) -> bool {
    exists|m: Message| #[trigger] starts_with(s, enc(m))
}

/// What the receiver gives and keeps after `byte` arrives at a buffer
/// holding `buf`: the message the gathered bytes begin with, if any, and
/// an empty buffer; else nothing, and the gathered bytes.
pub open spec fn rx_next(buf: Seq<u8>, byte: u8) -> (Option<Message>, Seq<u8>) {
    let acc = gathered(buf, byte);
    if holds_message(acc) {
        (Some(choose|m: Message| #[trigger] starts_with(acc, enc(m))), Seq::empty())
    } else {
        (None, acc)
    }
}

impl RxComms {
    pub open spec fn wf(&self) -> bool {
        self.buffer@.len() <= RX_CAPACITY
    }

    /// Takes one received byte. When the bytes gathered so far begin with a
    /// message, it is returned and the buffer starts afresh. Otherwise the
    /// byte is kept; a byte that arrives when the buffer is full starts it
    /// afresh, so a corrupted stream cannot overrun it.
    pub fn read_event(&mut self, byte: u8) -> (r: Option<Message>)
        requires
            old(self).wf(),
        ensures
            final(self).wf(),
            (r, final(self).buffer@) == rx_next(old(self).buffer@, byte),
            match r {
                Some(m) => starts_with(gathered(old(self).buffer@, byte), enc(m)),
                None => forall|m: Message|
                    !starts_with(gathered(old(self).buffer@, byte), #[trigger] enc(m)),
            },
    {
        if self.buffer.len() >= RX_CAPACITY {
            self.buffer.clear();
        }
        self.buffer.push(byte);
        proof {
            assert(self.buffer@ =~= gathered(old(self).buffer@, byte));
        }
        let found = decode(self.buffer.as_slice());
        match found {
            Some((m, _)) => {
                proof {
                    let acc = gathered(old(self).buffer@, byte);
                    assert(holds_message(acc));
                    let c = choose|x: Message| #[trigger] starts_with(acc, enc(x));
                    lemma_unique(acc, m, c);
                }
                self.buffer.clear();
                Some(m)
            },
            None => None,
        }
    }
}

/// What the receiver gives, in order, and what it holds at the end, after
/// the bytes `bytes` arrive one by one at a buffer holding `buf`.
pub open spec fn feed(buf: Seq<u8>, bytes: Seq<u8>) -> (Seq<Message>, Seq<u8>)
    decreases bytes.len(),
{
    if bytes.len() == 0 {
        (seq![], buf)
    } else {
        let (got, next) = rx_next(buf, bytes[0]);
        let (rest, last) = feed(next, bytes.drop_first());
        (
            match got {
                Some(m) => seq![m] + rest,
                None => rest,
            },
            last,
        )
    }
}

/// The bytes of the messages `ms`, one after the other.
pub open spec fn stream(ms: Seq<Message>) -> Seq<u8>
    decreases ms.len(),
{
    if ms.len() == 0 {
        seq![]
    } else {
        enc(ms[0]) + stream(ms.drop_first())
    }
}

/// No message takes more than eleven bytes.
pub proof fn lemma_enc_len(m: Message)
    ensures
        1 <= enc(m).len() <= 11,
{
    if let Message::SetDefaultLayer(u) = m {
        lemma_varint_len(u as nat);
    }
}

/// Fed the bytes of `m` from the `k`-th on, after the first `k` are held,
/// the receiver gives `m` when its last byte arrives and then goes on with
/// `tail` from an empty buffer.
proof fn lemma_feed_rest(m: Message, k: int, tail: Seq<u8>)
    requires
        0 <= k < enc(m).len(),
    ensures
        feed(enc(m).subrange(0, k), enc(m).subrange(k, enc(m).len() as int) + tail) == (
            seq![m] + feed(Seq::empty(), tail).0,
            feed(Seq::empty(), tail).1,
        ),
    decreases enc(m).len() - k,
{
    let e = enc(m);
    let p = e.subrange(0, k);
    let bytes = e.subrange(k, e.len() as int) + tail;
    lemma_enc_len(m);
    assert(bytes[0] == e[k]);
    let acc = gathered(p, e[k]);
    assert(acc =~= e.subrange(0, k + 1));
    if k + 1 == e.len() {
        assert(acc =~= e);
        assert(starts_with(acc, enc(m))) by {
            lemma_starts_with_index(acc, enc(m));
        }
        assert(holds_message(acc));
        let c = choose|x: Message| #[trigger] starts_with(acc, enc(x));
        lemma_unique(acc, m, c);
        assert(bytes.drop_first() =~= tail);
    } else {
        assert(!holds_message(acc)) by {
            if holds_message(acc) {
                let c = choose|x: Message| #[trigger] starts_with(acc, enc(x));
                lemma_starts_with_index(acc, enc(c));
                lemma_starts_with_index(e, enc(c));
                lemma_starts_with_index(e, e);
                lemma_unique(e, c, m);
            }
        }
        assert(bytes.drop_first() =~= e.subrange(k + 1, e.len() as int) + tail);
        lemma_feed_rest(m, k + 1, tail);
    }
}

/// The messages sent one after the other over the link come out of the
/// receiver, byte by byte from an empty buffer, equal and in the order they
/// were sent, and the buffer ends empty.
pub proof fn lemma_stream_round_trip(ms: Seq<Message>)
    ensures
        feed(Seq::empty(), stream(ms)) == (ms, Seq::<u8>::empty()),
    decreases ms.len(),
{
    if ms.len() > 0 {
        let m = ms[0];
        lemma_enc_len(m);
        lemma_stream_round_trip(ms.drop_first());
        lemma_feed_rest(m, 0, stream(ms.drop_first()));
        assert(enc(m).subrange(0, 0) =~= Seq::<u8>::empty());
        assert(enc(m).subrange(0, enc(m).len() as int) =~= enc(m));
        assert(seq![m] + ms.drop_first() =~= ms);
    }
}

} // verus!
