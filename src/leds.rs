use vstd::prelude::*;

pub mod fade;
pub mod off;
pub mod solid;
pub mod wheel;

use crate::leds::solid::Solid;

verus! {

/// What the LED strip shows.
#[derive(Copy, Clone, Debug, PartialEq, Eq, Structural)]
pub enum Mode {
    Off,
    Wheel,
    Solid,
    Fade,
}

impl Mode {
    /// The label shown for this mode.
    pub fn name(self) -> (r: &'static str)
        ensures
            r@ == mode_name(self),
    {
        proof {
            reveal_strlit("off");
            reveal_strlit("wheel");
            reveal_strlit("solid");
            reveal_strlit("fade");
        }
        match self {
            Mode::Off => "off",
            Mode::Wheel => "wheel",
            Mode::Solid => "solid",
            Mode::Fade => "fade",
        }
    }
}

pub open spec fn mode_name(m: Mode) -> Seq<char> {
    match m {
        Mode::Off => "off"@,
        Mode::Wheel => "wheel"@,
        Mode::Solid => "solid"@,
        Mode::Fade => "fade"@,
    }
}

/// A change to the LED settings.
#[derive(Copy, Clone, Debug, PartialEq, Eq, Structural)]
pub enum Action {
    SetMode(Mode),
    IncrementRed,
    DecrementRed,
    IncrementGreen,
    DecrementGreen,
    IncrementBlue,
    DecrementBlue,
    Solid(Solid),
    Update,
}

/// The colour of one LED.
#[derive(Copy, Clone, Debug, PartialEq, Eq, Structural)]
pub struct Rgb {
    pub r: u8,
    pub g: u8,
    pub b: u8,
}

impl Rgb {
    pub open spec fn black_spec() -> Rgb {
        Rgb { r: 0, g: 0, b: 0 }
    }

    pub fn black() -> (r: Rgb)
        ensures
            r == Rgb::black_spec(),
    {
        Rgb { r: 0, g: 0, b: 0 }
    }

    pub open spec fn from_triple(t: (u8, u8, u8)) -> Rgb {
        Rgb { r: t.0, g: t.1, b: t.2 }
    }

    /// Whether any channel is on.
    pub open spec fn is_lit(self) -> bool {
        self.r > 0 || self.g > 0 || self.b > 0
    }
}

/// The number of LEDs on the strip.
pub const STRIP_LEN: usize = 31;

/// One frame of the strip: three rows of seven key LEDs, five thumb LEDs
/// and six underglow LEDs.
#[derive(Copy, Clone)]
pub struct LEDMatrix {
    pub keys: [[Rgb; 7]; 3],
    pub thumb: [Rgb; 5],
    pub underglow: [Rgb; 6],
}

/// Where each position of the strip takes its colour from. The strip snakes
/// through the key rows and the underglow, then runs along the thumb
/// cluster; the last key of the bottom row has no LED.
pub open spec fn strip_at(m: LEDMatrix, i: int) -> Rgb {
    if i == 0 {
        m.underglow[2]
    } else if 1 <= i <= 3 {
        m.keys[0][7 - i]
    } else if i == 4 {
        m.underglow[1]
    } else if 5 <= i <= 6 {
        m.keys[0][8 - i]
    } else if i == 7 {
        m.underglow[0]
    } else if 8 <= i <= 9 {
        m.keys[0][9 - i]
    } else if 10 <= i <= 16 {
        m.keys[1][i - 10]
    } else if 17 <= i <= 18 {
        m.keys[2][22 - i]
    } else if i == 19 {
        m.underglow[4]
    } else if 20 <= i <= 21 {
        m.keys[2][23 - i]
    } else if i == 22 {
        m.underglow[3]
    } else if 23 <= i <= 24 {
        m.keys[2][24 - i]
    } else if 25 <= i <= 29 {
        m.thumb[i - 25]
    } else {
        m.underglow[5]
    }
}

impl LEDMatrix {
    /// Every LED shows `c`.
    pub open spec fn all(self, c: Rgb) -> bool {
        &&& forall|i: int, j: int| 0 <= i < 3 && 0 <= j < 7 ==> #[trigger] self.keys[i][j] == c
        &&& forall|j: int| 0 <= j < 5 ==> #[trigger] self.thumb[j] == c
        &&& self.underglow_all(c)
    }

    /// Every underglow LED shows `c`.
    pub open spec fn underglow_all(self, c: Rgb) -> bool {
        forall|j: int| 0 <= j < 6 ==> #[trigger] self.underglow[j] == c
    }

    /// This frame is `prev` with the LED under key (i, j), if it has one,
    /// set to `c`: rows 0 to 2 are the key rows, and row 3 from column 2 on
    /// is the thumb cluster.
    pub open spec fn is_lit_from(self, prev: LEDMatrix, i: int, j: int, c: Rgb) -> bool {
        &&& forall|a: int, b: int|
            0 <= a < 3 && 0 <= b < 7 ==> #[trigger] self.keys[a][b] == if a == i && b == j {
                c
            } else {
                prev.keys[a][b]
            }
        &&& forall|b: int|
            0 <= b < 5 ==> #[trigger] self.thumb[b] == if i == 3 && b == j - 2 {
                c
            } else {
                prev.thumb[b]
            }
        &&& forall|b: int| 0 <= b < 6 ==> #[trigger] self.underglow[b] == prev.underglow[b]
    }

    /// A frame with every LED in `c`.
    pub fn filled(c: Rgb) -> (r: LEDMatrix)
        ensures
            r.all(c),
    {
        LEDMatrix { keys: [[c;7];3], thumb: [c;5], underglow: [c;6] }
    }

    /// The colour at position `i` of the strip.
    pub fn strip(&self, i: usize) -> (r: Option<Rgb>)
        ensures
            i < STRIP_LEN ==> r == Some(strip_at(*self, i as int)),
            i >= STRIP_LEN ==> r is None,
    {
        match i {
            0 => Some(self.underglow[2]),
            1..=3 => Some(self.keys[0][7 - i]),
            4 => Some(self.underglow[1]),
            5..=6 => Some(self.keys[0][8 - i]),
            7 => Some(self.underglow[0]),
            8..=9 => Some(self.keys[0][9 - i]),
            10..=16 => Some(self.keys[1][i - 10]),
            17..=18 => Some(self.keys[2][22 - i]),
            19 => Some(self.underglow[4]),
            20..=21 => Some(self.keys[2][23 - i]),
            22 => Some(self.underglow[3]),
            23..=24 => Some(self.keys[2][24 - i]),
            25..=29 => Some(self.thumb[i - 25]),
            30 => Some(self.underglow[5]),
            _ => None,
        }
    }

    /// The colours in the order they go out on the strip.
    pub fn strip_order(&self) -> (r: Vec<Rgb>)
        ensures
            r@.len() == STRIP_LEN,
            forall|i: int| 0 <= i < STRIP_LEN ==> #[trigger] r@[i] == strip_at(*self, i),
    {
        let mut out: Vec<Rgb> = Vec::new();
        let mut i: usize = 0;
        while i < STRIP_LEN
            invariant
                i <= STRIP_LEN,
                out@.len() == i,
                forall|k: int| 0 <= k < i ==> #[trigger] out@[k] == strip_at(*self, k),
            decreases STRIP_LEN - i,
        {
            match self.strip(i) {
                Some(c) => out.push(c),
                None => {},
            }
            i += 1;
        }
        out
    }
}

} // verus!

verus! {

use crate::leds::fade::{FadeAfterRelease, fade_frame};
use crate::leds::off::Off;
use crate::leds::solid::{dec, inc};
use crate::leds::wheel::{Wheel, next_pos, wheel_color};
use crate::message::Message;
use crate::multi::Multi;

/// The LED engine: the mode, the state of each mode, and the last frame.
pub struct LEDs {
    pub last: LEDMatrix,
    pub mode: Mode,
    pub solid_rgb: Solid,
    pub off: Off,
    pub wheel: Wheel,
    pub fade: FadeAfterRelease,
    /// While asleep the strip is dark and frames are not drawn.
    pub sleep: bool,
    /// The frame drawn last and not yet sent to the strip.
    pub frame: Option<LEDMatrix>,
}

/// Drawing one frame in `l`'s mode gives `n`.
pub open spec fn drawn(l: LEDs, n: LEDs) -> bool {
    &&& n.mode == l.mode
    &&& n.solid_rgb == l.solid_rgb
    &&& n.sleep == l.sleep
    &&& n.frame == Some(n.last)
    &&& match l.mode {
        Mode::Off => n.last.all(Rgb::black_spec()) && n.wheel == l.wheel && n.fade == l.fade,
        Mode::Solid => n.last.all(l.solid_rgb.rgb()) && n.wheel == l.wheel && n.fade == l.fade,
        Mode::Wheel => {
            &&& n.last.all(Rgb::from_triple(wheel_color(l.wheel.0)))
            &&& n.wheel.0 == next_pos(l.wheel.0)
            &&& n.fade == l.fade
        },
        Mode::Fade => {
            &&& fade_frame(l.fade.current, l.last, l.fade.bg, n.last)
            &&& n.fade.key == l.fade.key
            &&& n.fade.bg == l.fade.bg
            &&& n.fade.current.all(Rgb::black_spec())
            &&& n.wheel == l.wheel
        },
    }
}

/// A frame is drawn unless the strip sleeps.
pub open spec fn refreshed(l: LEDs, n: LEDs) -> bool {
    if l.sleep {
        n == l
    } else {
        drawn(l, n)
    }
}

/// `n` is `l` with its solid colour set to `s`.
pub open spec fn with_solid(l: LEDs, s: Solid) -> LEDs {
    LEDs { solid_rgb: s, ..l }
}

/// The reaction of the LED engine `l` to `msg`: it becomes `n` and sends
/// `out`. Changes made on this board are mirrored to the other one.
pub open spec fn led_step(l: LEDs, msg: Message, n: LEDs, out: Seq<Message>) -> bool {
    match msg {
        Message::UpdateDisplay => refreshed(l, n) && out.len() == 0,
        Message::LED(Action::SetMode(m)) => refreshed(LEDs { mode: m, ..l }, n) && out == seq![
            Message::SecondaryLED(Action::SetMode(m)),
        ],
        Message::LED(Action::IncrementRed) => {
            let s = Solid(inc(l.solid_rgb.0), l.solid_rgb.1, l.solid_rgb.2);
            n == with_solid(l, s) && out == seq![Message::SecondaryLED(Action::Solid(s))]
        },
        Message::LED(Action::DecrementRed) => {
            let s = Solid(dec(l.solid_rgb.0), l.solid_rgb.1, l.solid_rgb.2);
            n == with_solid(l, s) && out == seq![Message::SecondaryLED(Action::Solid(s))]
        },
        Message::LED(Action::IncrementGreen) => {
            let s = Solid(l.solid_rgb.0, inc(l.solid_rgb.1), l.solid_rgb.2);
            n == with_solid(l, s) && out == seq![Message::SecondaryLED(Action::Solid(s))]
        },
        Message::LED(Action::DecrementGreen) => {
            let s = Solid(l.solid_rgb.0, dec(l.solid_rgb.1), l.solid_rgb.2);
            n == with_solid(l, s) && out == seq![Message::SecondaryLED(Action::Solid(s))]
        },
        Message::LED(Action::IncrementBlue) => {
            let s = Solid(l.solid_rgb.0, l.solid_rgb.1, inc(l.solid_rgb.2));
            n == with_solid(l, s) && out == seq![Message::SecondaryLED(Action::Solid(s))]
        },
        Message::LED(Action::DecrementBlue) => {
            let s = Solid(l.solid_rgb.0, l.solid_rgb.1, dec(l.solid_rgb.2));
            n == with_solid(l, s) && out == seq![Message::SecondaryLED(Action::Solid(s))]
        },
        Message::LED(Action::Update) => refreshed(l, n) && out == seq![
            Message::SecondaryLED(Action::Update),
        ],
        Message::SecondaryLED(Action::SetMode(m)) => refreshed(LEDs { mode: m, ..l }, n)
            && out.len() == 0,
        Message::SecondaryLED(Action::Solid(s)) => n == with_solid(l, s) && out.len() == 0,
        Message::SecondaryLED(Action::Update) => refreshed(l, n) && out.len() == 0,
        Message::LateInit => refreshed(l, n) && out.len() == 0,
        Message::MatrixKeyRelease(i, j) => {
            &&& n == (LEDs { fade: n.fade, ..l })
            &&& n.fade.key == l.fade.key
            &&& n.fade.bg == l.fade.bg
            &&& n.fade.current.is_lit_from(l.fade.current, i as int, j as int, l.fade.key)
            &&& out.len() == 0
        },
        Message::Sleep => {
            &&& n.sleep
            &&& n.last.all(Rgb::black_spec())
            &&& n.frame == Some(n.last)
            &&& n == (LEDs { sleep: true, last: n.last, frame: n.frame, ..l })
            &&& out.len() == 0
        },
        Message::Wake => n == (LEDs { sleep: false, ..l }) && out.len() == 0,
        _ => n == l && out.len() == 0,
    }
}

impl LEDs {
    /// Starts in the solid mode, with every LED dark.
    pub fn new() -> (r: LEDs)
        ensures
            r.mode == Mode::Solid,
            r.solid_rgb == Solid(0, 128, 200),
            r.wheel.0 == 0,
            !r.sleep,
            r.frame is None,
            r.last.all(Rgb::black_spec()),
    {
        LEDs {
            last: LEDMatrix::filled(Rgb::black()),
            mode: Mode::Solid,
            solid_rgb: Solid::new(),
            off: Off::new(),
            wheel: Wheel::new(),
            fade: FadeAfterRelease::new(),
            sleep: false,
            frame: None,
        }
    }

    fn write_all(&mut self, matrix: LEDMatrix)
        ensures
            *final(self) == (LEDs { last: matrix, frame: Some(matrix), ..*old(self) }),
    {
        self.last = matrix;
        self.frame = Some(matrix);
    }

    fn off(&mut self)
        ensures
            final(self).last.all(Rgb::black_spec()),
            *final(self) == (LEDs {
                last: final(self).last,
                frame: Some(final(self).last),
                ..*old(self)
            }),
    {
        let matrix = self.off.next_matrix(self.last);
        self.write_all(matrix);
    }

    fn update_leds(&mut self)
        ensures
            refreshed(*old(self), *final(self)),
    {
        if self.sleep {
            return;
        }
        match self.mode {
            Mode::Off => self.off(),
            Mode::Solid => {
                let matrix = self.solid_rgb.next_matrix(self.last);
                self.write_all(matrix);
            },
            Mode::Wheel => {
                let matrix = self.wheel.next_matrix(self.last);
                self.write_all(matrix);
            },
            Mode::Fade => {
                let matrix = self.fade.next_matrix(self.last);
                self.write_all(matrix);
            },
        }
    }

    fn choose_mode(&mut self, mode: Mode)
        ensures
            refreshed(LEDs { mode, ..*old(self) }, *final(self)),
    {
        self.mode = mode;
        self.update_leds();
    }

    /// Hands out the frame drawn last, once.
    pub fn take_frame(&mut self) -> (r: Option<LEDMatrix>)
        ensures
            r == old(self).frame,
            *final(self) == (LEDs { frame: None, ..*old(self) }),
    {
        let r = self.frame;
        self.frame = None;
        r
    }

    /// Reacts to one message.
    pub fn handle_event(&mut self, message: Message) -> (r: Multi<Message>)
        ensures
            led_step(*old(self), message, *final(self), r@),
    {
        match message {
            Message::UpdateDisplay => {
                self.update_leds();
                Multi::Zero
            },
            Message::LED(Action::SetMode(mode)) => {
                self.choose_mode(mode);
                Multi::One(Message::SecondaryLED(Action::SetMode(mode)))
            },
            Message::LED(Action::IncrementRed) => {
                self.solid_rgb.increment_red();
                Multi::One(Message::SecondaryLED(Action::Solid(self.solid_rgb)))
            },
            Message::LED(Action::DecrementRed) => {
                self.solid_rgb.decrement_red();
                Multi::One(Message::SecondaryLED(Action::Solid(self.solid_rgb)))
            },
            Message::LED(Action::IncrementGreen) => {
                self.solid_rgb.increment_green();
                Multi::One(Message::SecondaryLED(Action::Solid(self.solid_rgb)))
            },
            Message::LED(Action::DecrementGreen) => {
                self.solid_rgb.decrement_green();
                Multi::One(Message::SecondaryLED(Action::Solid(self.solid_rgb)))
            },
            Message::LED(Action::IncrementBlue) => {
                self.solid_rgb.increment_blue();
                Multi::One(Message::SecondaryLED(Action::Solid(self.solid_rgb)))
            },
            Message::LED(Action::DecrementBlue) => {
                self.solid_rgb.decrement_blue();
                Multi::One(Message::SecondaryLED(Action::Solid(self.solid_rgb)))
            },
            Message::LED(Action::Update) => {
                self.update_leds();
                Multi::One(Message::SecondaryLED(Action::Update))
            },
            Message::SecondaryLED(Action::SetMode(mode)) => {
                self.choose_mode(mode);
                Multi::Zero
            },
            Message::SecondaryLED(Action::Solid(rgb)) => {
                self.solid_rgb = rgb;
                Multi::Zero
            },
            Message::SecondaryLED(Action::Update) => {
                self.update_leds();
                Multi::Zero
            },
            Message::LateInit => {
                let mode = self.mode;
                self.choose_mode(mode);
                Multi::Zero
            },
            Message::MatrixKeyRelease(i, j) => {
                self.fade.key_release(i as usize, j as usize);
                Multi::Zero
            },
            Message::Sleep => {
                self.off();
                self.sleep = true;
                Multi::Zero
            },
            Message::Wake => {
                self.sleep = false;
                Multi::Zero
            },
            _ => Multi::Zero,
        }
    }
}

} // verus!
