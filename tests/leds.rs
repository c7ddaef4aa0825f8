use peautkb::leds::fade::{FadeAfterRelease, converge, converge_rgb};
use peautkb::leds::off::Off;
use peautkb::leds::solid::Solid;
use peautkb::leds::wheel::Wheel;
use peautkb::leds::{Action, LEDMatrix, LEDs, Mode, Rgb};
use peautkb::message::Message;
use peautkb::ws2812::encode_pixels;

const BG: Rgb = Rgb { r: 0, g: 128, b: 200 };

fn all_same(m: &LEDMatrix, c: Rgb) -> bool {
    m.strip_order().iter().all(|x| *x == c)
}

#[test]
fn increment_red_saturates() {
    let mut s = Solid(255, 0, 0);
    for _ in 0..10 {
        s.increment_red();
    }
    assert_eq!(s.red(), 255);
    let mut z = Solid(0, 0, 0);
    for _ in 0..10 {
        z.decrement_blue();
    }
    assert_eq!(z.blue(), 0);
    let mut g = Solid(0, 250, 0);
    for _ in 0..3 {
        g.increment_green();
    }
    assert_eq!(g.green(), 253);
    g.decrement_green();
    assert_eq!(g.green(), 252);
}

#[test]
fn solid_defaults_and_update() {
    let mut s = Solid::new();
    assert_eq!((s.red(), s.green(), s.blue()), (0, 128, 200));
    s.update((9, 8, 7));
    assert_eq!(s, Solid(9, 8, 7));
}

#[test]
fn wheel_ends_are_red() {
    assert_eq!(Wheel::wheel(0), (255, 0, 0));
    assert_eq!(Wheel::wheel(255), (255, 0, 0));
    assert_eq!(Wheel::wheel(85), (0, 255, 0));
    assert_eq!(Wheel::wheel(170), (0, 0, 255));
    assert_eq!(Wheel::wheel(128), (0, 126, 129));
}

#[test]
fn wheel_repeats_after_256_frames() {
    let mut w = Wheel::new();
    let blank = LEDMatrix::filled(Rgb::black());
    let first = w.next_matrix(blank).strip(0);
    for _ in 0..255 {
        w.next_matrix(blank);
    }
    assert_eq!(w.0, 0);
    assert_eq!(w.next_matrix(blank).strip(0), first);
}

#[test]
fn converge_moves_a_tenth_at_least_one() {
    assert_eq!(converge(0, 200), 20);
    assert_eq!(converge(200, 0), 180);
    assert_eq!(converge(125, 128), 126);
    assert_eq!(converge(130, 128), 129);
    assert_eq!(converge(128, 128), 128);
    assert_eq!(
        converge_rgb(Rgb { r: 255, g: 0, b: 0 }, BG),
        Rgb { r: 230, g: 12, b: 20 }
    );
}

#[test]
fn fade_lights_released_keys_then_fades() {
    let mut f = FadeAfterRelease::new();
    let start = LEDMatrix::filled(Rgb::black());
    f.key_release(1, 3);
    f.key_release(3, 4);
    f.key_release(3, 0);
    f.key_release(2, 13);
    let m = f.next_matrix(start);
    assert_eq!(m.keys[1][3], Rgb { r: 255, g: 0, b: 0 });
    assert_eq!(m.thumb[2], Rgb { r: 255, g: 0, b: 0 });
    assert_eq!(m.keys[0][0], Rgb { r: 0, g: 12, b: 20 });
    assert_eq!(m.underglow[4], BG);
    let m2 = f.next_matrix(m);
    assert_eq!(m2.keys[1][3], Rgb { r: 230, g: 12, b: 20 });
}

#[test]
fn strip_order_snakes() {
    let mut m = LEDMatrix::filled(Rgb::black());
    for i in 0..3 {
        for j in 0..7 {
            m.keys[i][j] = Rgb { r: i as u8, g: j as u8, b: 1 };
        }
    }
    for j in 0..5 {
        m.thumb[j] = Rgb { r: 10, g: j as u8, b: 2 };
    }
    for j in 0..6 {
        m.underglow[j] = Rgb { r: 20, g: j as u8, b: 3 };
    }
    let s = m.strip_order();
    assert_eq!(s.len(), 31);
    assert_eq!(s[0], m.underglow[2]);
    assert_eq!(s[1], m.keys[0][6]);
    assert_eq!(s[4], m.underglow[1]);
    assert_eq!(s[9], m.keys[0][0]);
    assert_eq!(s[10], m.keys[1][0]);
    assert_eq!(s[16], m.keys[1][6]);
    assert_eq!(s[17], m.keys[2][5]);
    assert_eq!(s[24], m.keys[2][0]);
    assert_eq!(s[25], m.thumb[0]);
    assert_eq!(s[30], m.underglow[5]);
    assert_eq!(m.strip(31), None);
}

#[test]
fn off_is_dark() {
    let mut o = Off::new();
    let m = o.next_matrix(LEDMatrix::filled(BG));
    assert!(all_same(&m, Rgb::black()));
}

#[test]
fn ws2812_bit_patterns() {
    let bytes = encode_pixels(&vec![Rgb { r: 0xFF, g: 0x00, b: 0b1001_0110 }]);
    assert_eq!(
        bytes,
        vec![0x88, 0x88, 0x88, 0x88, 0xEE, 0xEE, 0xEE, 0xEE, 0xE8, 0x8E, 0x8E, 0xE8]
    );
    assert_eq!(encode_pixels(&vec![BG, BG]).len(), 24);
}

#[test]
fn led_changes_are_mirrored() {
    let mut l = LEDs::new();
    let out = l.handle_event(Message::LED(Action::IncrementRed));
    let mut it = out.into_iter();
    assert_eq!(it.next(), Some(Message::SecondaryLED(Action::Solid(Solid(1, 128, 200)))));
    assert_eq!(it.next(), None);
    assert_eq!(l.handle_event(Message::SecondaryLED(Action::SetMode(Mode::Off))).len(), 0);
    assert_eq!(l.mode, Mode::Off);
    let frame = l.take_frame().unwrap();
    assert!(all_same(&frame, Rgb::black()));
    let out = l.handle_event(Message::LED(Action::SetMode(Mode::Solid)));
    assert_eq!(out.into_iter().next(), Some(Message::SecondaryLED(Action::SetMode(Mode::Solid))));
    assert!(all_same(&l.take_frame().unwrap(), Rgb { r: 1, g: 128, b: 200 }));
}

#[test]
fn sleep_darkens_and_keeps_mode() {
    let mut l = LEDs::new();
    l.handle_event(Message::Sleep);
    assert!(l.sleep);
    assert_eq!(l.mode, Mode::Solid);
    assert!(all_same(&l.take_frame().unwrap(), Rgb::black()));
    l.handle_event(Message::UpdateDisplay);
    assert!(l.take_frame().is_none());
    l.handle_event(Message::Wake);
    l.handle_event(Message::UpdateDisplay);
    assert!(all_same(&l.take_frame().unwrap(), BG));
}
