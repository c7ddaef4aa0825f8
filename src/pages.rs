use vstd::prelude::*;

use numtoa::NumToA;

use crate::info::Info;
use crate::keymap::layer_name;
use crate::leds::{LEDs, mode_name};
use crate::menu::{Menu, item_label, item_name, menu_len, menu_len_of};
use crate::message::Hand;

verus! {

/// A piece of text drawn on the display, its top left corner at (x, y).
pub struct TextLine {
    pub text: String,
    pub x: i32,
    pub y: i32,
}

/// The text and place of each line.
pub open spec fn lines_view(s: Seq<TextLine>) -> Seq<(Seq<char>, i32, i32)> {
    s.map_values(|t: TextLine| (t.text@, t.x, t.y))
}

/// A digit in base 16, upper case.
pub open spec fn hex_digit(d: u8) -> char {
    if d < 10 {
        (('0' as u8) + d) as char
    } else {
        (('A' as u8) + d - 10) as char
    }
}

/// A byte in base 16, upper case, without leading zeros.
pub open spec fn hex_of(v: u8) -> Seq<char> {
    if v < 16 {
        seq![hex_digit(v)]
    } else {
        seq![hex_digit(v / 16), hex_digit(v % 16)]
    }
}

/// Relies on numtoa's `NumToA::numtoa_str` for `u8` in base 16: the digits
/// of the value from its table "0123456789ABCDEF...", most significant
/// first, without leading zeros, and "0" for zero.
#[verifier::external_body]
fn hex_string(v: u8) -> (r: String)
    ensures
        r@ == hex_of(v),
{
    let mut buf = [0u8; 20];
    String::from(v.numtoa_str(16, &mut buf))
}

pub open spec fn bool_text(b: bool) -> Seq<char> {
    if b {
        "true"@
    } else {
        "false"@
    }
}

pub fn bool_to_string(b: bool) -> (r: &'static str)
    ensures
        r@ == bool_text(b),
{
    proof {
        reveal_strlit("true");
        reveal_strlit("false");
    }
    if b {
        "true"
    } else {
        "false"
    }
}

fn line(text: &str, x: i32, y: i32) -> (r: TextLine)
    ensures
        r.text@ == text@,
        r.x == x,
        r.y == y,
{
    TextLine { text: text.to_owned(), x, y }
}

pub open spec fn hand_text(h: Option<Hand>) -> Seq<char> {
    match h {
        Some(Hand::Left) => "left"@,
        Some(Hand::Right) => "right"@,
        None => ""@,
    }
}

/// The info page: the board's hand, whether USB is connected, the layer,
/// and on the left hand the held modifiers.
pub open spec fn info_lines(info: Info) -> Seq<(Seq<char>, i32, i32)> {
    let common = seq![
        ("hand:"@, 0i32, 0i32),
        (hand_text(info.hand), 36i32, 0i32),
        ("usb:"@, 0i32, 13i32),
        (bool_text(info.usb_connected), 30i32, 13i32),
        ("layer:"@, 0i32, 26i32),
        (layer_name(info.current_layer), 0i32, 39i32),
    ];
    if info.hand == Some(Hand::Left) {
        common + seq![
            ("cmd:"@, 0i32, 52i32),
            (bool_text(info.cmd_held), 30i32, 52i32),
            ("ctrl:"@, 0i32, 65i32),
            (bool_text(info.ctrl_held), 36i32, 65i32),
        ]
    } else {
        common
    }
}

pub fn info_page(info: &Info) -> (r: Vec<TextLine>)
    ensures
        lines_view(r@) == info_lines(*info),
{
    proof {
        reveal_strlit("hand:");
        reveal_strlit("left");
        reveal_strlit("right");
        reveal_strlit("");
        reveal_strlit("usb:");
        reveal_strlit("layer:");
        reveal_strlit("cmd:");
        reveal_strlit("ctrl:");
    }
    let mut v: Vec<TextLine> = Vec::new();
    v.push(line("hand:", 0, 0));
    let hand = match info.hand {
        Some(Hand::Left) => "left",
        Some(Hand::Right) => "right",
        None => "",
    };
    v.push(line(hand, 36, 0));
    v.push(line("usb:", 0, 13));
    v.push(line(bool_to_string(info.usb_connected), 30, 13));
    v.push(line("layer:", 0, 26));
    v.push(line(info.current_layer.name(), 0, 39));
    if info.hand == Some(Hand::Left) {
        v.push(line("cmd:", 0, 52));
        v.push(line(bool_to_string(info.cmd_held), 30, 52));
        v.push(line("ctrl:", 0, 65));
        v.push(line(bool_to_string(info.ctrl_held), 36, 65));
    }
    assert(lines_view(v@) =~= info_lines(*info));
    v
}

/// The LED page: the mode and the solid colour in base 16.
pub open spec fn leds_lines(leds: LEDs) -> Seq<(Seq<char>, i32, i32)> {
    seq![
        ("mode: "@, 0i32, 0i32),
        (mode_name(leds.mode), 36i32, 0i32),
        ("red: "@, 0i32, 13i32),
        (hex_of(leds.solid_rgb.0), 42i32, 13i32),
        ("green: "@, 0i32, 26i32),
        (hex_of(leds.solid_rgb.1), 42i32, 26i32),
        ("blue: "@, 0i32, 39i32),
        (hex_of(leds.solid_rgb.2), 42i32, 39i32),
    ]
}

pub fn leds_page(leds: &LEDs) -> (r: Vec<TextLine>)
    ensures
        lines_view(r@) == leds_lines(*leds),
{
    proof {
        reveal_strlit("mode: ");
        reveal_strlit("red: ");
        reveal_strlit("green: ");
        reveal_strlit("blue: ");
    }
    let mut v: Vec<TextLine> = Vec::new();
    v.push(line("mode: ", 0, 0));
    v.push(line(leds.mode.name(), 36, 0));
    v.push(line("red: ", 0, 13));
    v.push(TextLine { text: hex_string(leds.solid_rgb.red()), x: 42, y: 13 });
    v.push(line("green: ", 0, 26));
    v.push(TextLine { text: hex_string(leds.solid_rgb.green()), x: 42, y: 26 });
    v.push(line("blue: ", 0, 39));
    v.push(TextLine { text: hex_string(leds.solid_rgb.blue()), x: 42, y: 39 });
    assert(lines_view(v@) =~= leds_lines(*leds));
    v
}

/// The menu page: "back", the entries one under the other, and a dash at
/// the cursor.
pub fn menu_page(menu: &Menu) -> (r: Vec<TextLine>)
    requires
        menu.wf(),
    ensures
        r@.len() == menu_len(menu.current_menu as int) + 2,
        r@[0].text@ == "back"@ && r@[0].x == 7 && r@[0].y == 0,
        forall|k: int|
            1 <= k <= menu_len(menu.current_menu as int) ==> #[trigger] r@[k].x == 7 && r@[k].y
                == k * 13 && r@[k].text@ == item_label(menu.current_menu as int, k - 1),
        r@.last().text@ == "-"@,
        r@.last().x == 0,
        r@.last().y == menu.current_item * 13,
{
    proof {
        reveal_strlit("back");
        reveal_strlit("-");
    }
    let mut v: Vec<TextLine> = Vec::new();
    v.push(line("back", 7, 0));
    let len = menu_len_of(menu.current_menu);
    let mut k: usize = 0;
    while k < len
        invariant
            menu.wf(),
            len == menu_len(menu.current_menu as int),
            len <= 4,
            k <= len,
            v@.len() == k + 1,
            v@[0].text@ == "back"@ && v@[0].x == 7 && v@[0].y == 0,
            forall|i: int|
                1 <= i <= k ==> #[trigger] v@[i].x == 7 && v@[i].y == i * 13 && v@[i].text@
                    == item_label(menu.current_menu as int, i - 1),
        decreases len - k,
    {
        let name = item_name(menu.current_menu, k);
        let ghost before = v@;
        v.push(line(name, 7, ((k + 1) * 13) as i32));
        assert forall|i: int|
            1 <= i <= k + 1 implies #[trigger] v@[i].x == 7 && v@[i].y == i * 13 && v@[i].text@
            == item_label(menu.current_menu as int, i - 1) by {
            if i <= k {
                assert(v@[i] == before[i]);
            }
        }
        k += 1;
    }
    let ghost before = v@;
    v.push(line("-", 0, (menu.current_item * 13) as i32));
    assert forall|i: int|
        1 <= i <= menu_len(menu.current_menu as int) implies #[trigger] v@[i].x == 7 && v@[i].y
        == i * 13 && v@[i].text@ == item_label(menu.current_menu as int, i - 1) by {
        assert(v@[i] == before[i]);
    }
    v
}

/// The idle page.
pub fn bongo_page() -> (r: Vec<TextLine>)
    ensures
        lines_view(r@) == seq![("bongo!"@, 10i32, 50i32)],
{
    proof {
        reveal_strlit("bongo!");
    }
    let mut v: Vec<TextLine> = Vec::new();
    v.push(line("bongo!", 10, 50));
    assert(lines_view(v@) =~= seq![("bongo!"@, 10i32, 50i32)]);
    v
}

} // verus!
