use vstd::prelude::*;

use crate::leds::{LEDMatrix, Rgb};

verus! {

/// How far one frame moves a channel that is `d` units away from its
/// target: a tenth of the distance, and at least one unit.
pub open spec fn step_of(d: int) -> int {
    if d / 10 == 0 {
        1
    } else {
        d / 10
    }
}

/// One frame of a channel moving from `current` toward `target`.
pub open spec fn converge_spec(current: u8, target: u8) -> u8 {
    if current > target {
        (current - step_of(current - target)) as u8
    } else if current < target {
        (current + step_of(target - current)) as u8
    } else {
        current
    }
}

/// One frame of a colour moving toward `target`, channel by channel.
pub open spec fn converge_rgb_spec(current: Rgb, target: Rgb) -> Rgb {
    Rgb {
        r: converge_spec(current.r, target.r),
        g: converge_spec(current.g, target.g),
        b: converge_spec(current.b, target.b),
    }
}

/// Moves a channel one frame toward its target; it never passes the target.
pub fn converge(current: u8, target: u8) -> (r: u8)
    ensures
        r == converge_spec(current, target),
        current >= target ==> target <= r <= current,
        current <= target ==> current <= r <= target,
{
    if current > target {
        let d: u8 = current - target;
        let step: u8 = if d / 10 == 0 {
            1
        } else {
            d / 10
        };
        current - step
    } else if current < target {
        let d: u8 = target - current;
        let step: u8 = if d / 10 == 0 {
            1
        } else {
            d / 10
        };
        current + step
    } else {
        current
    }
}

/// Moves a colour one frame toward `target`.
pub fn converge_rgb(current: Rgb, target: Rgb) -> (r: Rgb)
    ensures
        r == converge_rgb_spec(current, target),
{
    let Rgb { r: current_r, g: current_g, b: current_b } = current;
    let Rgb { r: target_r, g: target_g, b: target_b } = target;
    Rgb {
        r: converge(current_r, target_r),
        g: converge(current_g, target_g),
        b: converge(current_b, target_b),
    }
}

/// Keys light up in `key` when released, then fade toward `bg`.
pub struct FadeAfterRelease {
    pub key: Rgb,
    pub bg: Rgb,
    /// The keys released since the last frame, lit; the others dark.
    pub current: LEDMatrix,
}

/// The frame that follows `last`: keys released since then show their
/// colour in `current`, the other keys and the thumb LEDs move one step
/// toward `bg`, and the underglow shows `bg`.
pub open spec fn fade_frame(current: LEDMatrix, last: LEDMatrix, bg: Rgb, next: LEDMatrix) -> bool {
    &&& forall|i: int, j: int|
        0 <= i < 3 && 0 <= j < 7 ==> #[trigger] next.keys[i][j] == if current.keys[i][j].is_lit() {
            current.keys[i][j]
        } else {
            converge_rgb_spec(last.keys[i][j], bg)
        }
    &&& forall|j: int|
        0 <= j < 5 ==> #[trigger] next.thumb[j] == if current.thumb[j].is_lit() {
            current.thumb[j]
        } else {
            converge_rgb_spec(last.thumb[j], bg)
        }
    &&& next.underglow_all(bg)
}

impl FadeAfterRelease {
    pub fn new() -> (r: Self)
        ensures
            r.key == (Rgb { r: 255, g: 0, b: 0 }),
            r.bg == (Rgb { r: 0, g: 128, b: 200 }),
            r.current.all(Rgb::black_spec()),
    {
        FadeAfterRelease {
            key: Rgb { r: 255, g: 0, b: 0 },
            bg: Rgb { r: 0, g: 128, b: 200 },
            current: LEDMatrix::filled(Rgb::black()),
        }
    }

    /// Lights the LED under key (i, j): rows 0 to 2 are the key rows, and
    /// row 3 from column 2 on is the thumb cluster. Other keys have no LED.
    pub fn key_release(&mut self, i: usize, j: usize)
        ensures
            final(self).key == old(self).key,
            final(self).bg == old(self).bg,
            final(self).current.is_lit_from(old(self).current, i as int, j as int, old(self).key),
    {
        if i < 3 {
            if j < 7 {
                self.current.keys[i][j] = self.key;
            }
        } else if i == 3 {
            if j > 1 && j < 7 {
                self.current.thumb[j - 2] = self.key;
            }
        }
    }

    /// The next frame after `last`; the released keys are forgotten.
    pub fn next_matrix(&mut self, last: LEDMatrix) -> (r: LEDMatrix)
        ensures
            fade_frame(old(self).current, last, old(self).bg, r),
            final(self).key == old(self).key,
            final(self).bg == old(self).bg,
            final(self).current.all(Rgb::black_spec()),
    {
        let mut next = last;
        let mut i: usize = 0;
        while i < 3
            invariant
                0 <= i <= 3,
                next.thumb == last.thumb,
                next.underglow == last.underglow,
                forall|a: int, b: int|
                    0 <= a < i && 0 <= b < 7 ==> #[trigger] next.keys[a][b] == if self.current.keys[a][b].is_lit() {
                        self.current.keys[a][b]
                    } else {
                        converge_rgb_spec(last.keys[a][b], self.bg)
                    },
                forall|a: int| i <= a < 3 ==> #[trigger] next.keys[a] == last.keys[a],
            decreases 3 - i,
        {
            let mut j: usize = 0;
            while j < 7
                invariant
                    0 <= i < 3,
                    0 <= j <= 7,
                    next.thumb == last.thumb,
                    next.underglow == last.underglow,
                    forall|a: int, b: int|
                        0 <= a < i && 0 <= b < 7 ==> #[trigger] next.keys[a][b] == if self.current.keys[a][b].is_lit() {
                            self.current.keys[a][b]
                        } else {
                            converge_rgb_spec(last.keys[a][b], self.bg)
                        },
                    forall|b: int|
                        0 <= b < j ==> #[trigger] next.keys[i as int][b] == if self.current.keys[i as int][b].is_lit() {
                            self.current.keys[i as int][b]
                        } else {
                            converge_rgb_spec(last.keys[i as int][b], self.bg)
                        },
                    forall|b: int| j <= b < 7 ==> #[trigger] next.keys[i as int][b] == last.keys[i as int][b],
                    forall|a: int| i < a < 3 ==> #[trigger] next.keys[a] == last.keys[a],
                decreases 7 - j,
            {
                let c = self.current.keys[i][j];
                if c.r > 0 || c.g > 0 || c.b > 0 {
                    next.keys[i][j] = c;
                } else {
                    next.keys[i][j] = converge_rgb(next.keys[i][j], self.bg);
                }
                j += 1;
            }
            i += 1;
        }
        let mut k: usize = 0;
        while k < 5
            invariant
                0 <= k <= 5,
                next.underglow == last.underglow,
                forall|a: int, b: int|
                    0 <= a < 3 && 0 <= b < 7 ==> #[trigger] next.keys[a][b] == if self.current.keys[a][b].is_lit() {
                        self.current.keys[a][b]
                    } else {
                        converge_rgb_spec(last.keys[a][b], self.bg)
                    },
                forall|b: int|
                    0 <= b < k ==> #[trigger] next.thumb[b] == if self.current.thumb[b].is_lit() {
                        self.current.thumb[b]
                    } else {
                        converge_rgb_spec(last.thumb[b], self.bg)
                    },
                forall|b: int| k <= b < 5 ==> #[trigger] next.thumb[b] == last.thumb[b],
            decreases 5 - k,
        {
            let c = self.current.thumb[k];
            if c.r > 0 || c.g > 0 || c.b > 0 {
                next.thumb[k] = c;
            } else {
                next.thumb[k] = converge_rgb(next.thumb[k], self.bg);
            }
            k += 1;
        }
        next.underglow = [self.bg;6];
        self.current = LEDMatrix::filled(Rgb::black());
        next
    }
}

} // verus!
