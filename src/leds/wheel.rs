use vstd::prelude::*;

use crate::leds::{LEDMatrix, Rgb};

verus! {

/// Every LED in one colour of the wheel, one step further at each frame.
pub struct Wheel(pub u8);

/// The colour at a position of the wheel: red to blue, blue to green, green
/// back to red, each leg linear over a third of the range.
pub open spec fn wheel_color(pos: u8) -> (u8, u8, u8) {
    let w = 255 - pos;
    if w < 85 {
        ((255 - w * 3) as u8, 0u8, (w * 3) as u8)
    } else if w < 170 {
        (0u8, ((w - 85) * 3) as u8, (255 - (w - 85) * 3) as u8)
    } else {
        (((w - 170) * 3) as u8, (255 - (w - 170) * 3) as u8, 0u8)
    }
}

/// The colour after `n` steps from the start of the wheel.
pub open spec fn wheel_at(n: int) -> (u8, u8, u8) {
    wheel_color((n % 256) as u8)
}

/// The position after one step.
pub open spec fn next_pos(pos: u8) -> u8 {
    if pos < 255 {
        (pos + 1) as u8
    } else {
        0
    }
}

impl Wheel {
    pub fn new() -> (r: Self)
        ensures
            r.0 == 0,
    {
        Wheel(0)
    }

    pub fn wheel(wheel_pos: u8) -> (r: (u8, u8, u8))
        ensures
            r == wheel_color(wheel_pos),
    {
        let mut w: u8 = 255 - wheel_pos;
        if w < 85 {
            return (255 - w * 3, 0, w * 3);
        }
        if w < 170 {
            w -= 85;
            return (0, w * 3, 255 - w * 3);
        }
        w -= 170;
        (w * 3, 255 - w * 3, 0)
    }

    pub fn next_matrix(&mut self, _last: LEDMatrix) -> (r: LEDMatrix)
        ensures
            final(self).0 == next_pos(old(self).0),
            r.all(Rgb::from_triple(wheel_color(old(self).0))),
    {
        let (r, g, b) = Wheel::wheel(self.0);
        self.0 = if self.0 < 255 {
            self.0 + 1
        } else {
            0
        };
        LEDMatrix::filled(Rgb { r, g, b })
    }
}

/// The wheel repeats every 256 steps, and its two ends are both pure red.
pub proof fn lemma_wheel_period(n: int)
    ensures
        wheel_at(n + 256) == wheel_at(n),
        wheel_color(0) == (255u8, 0u8, 0u8),
        wheel_color(255) == (255u8, 0u8, 0u8),
{
    assert((n + 256) % 256 == n % 256);
}

/// One step of the wheel moves its position on by one, modulo 256.
pub proof fn lemma_wheel_step(pos: u8)
    ensures
        next_pos(pos) as int == (pos + 1) % 256,
        wheel_color(next_pos(pos)) == wheel_at(pos + 1),
{
}

} // verus!
