use vstd::prelude::*;

use crate::leds::{LEDMatrix, Rgb};

verus! {

/// A fixed colour for every LED, adjusted one unit at a time.
#[derive(Copy, Clone, Debug, PartialEq, Eq, Structural)]
pub struct Solid(pub u8, pub u8, pub u8);

/// One unit up, staying at 255.
pub open spec fn inc(v: u8) -> u8 {
    if v < 255 {
        (v + 1) as u8
    } else {
        255
    }
}

/// One unit down, staying at 0.
pub open spec fn dec(v: u8) -> u8 {
    if v > 0 {
        (v - 1) as u8
    } else {
        0
    }
}

impl Solid {
    /// The colour this mode starts with.
    pub fn new() -> (r: Self)
        ensures
            r == Solid(0, 128, 200),
    {
        Solid(0, 128, 200)
    }

    pub fn update(&mut self, new: (u8, u8, u8))
        ensures
            *final(self) == Solid(new.0, new.1, new.2),
    {
        let (r, g, b) = new;
        self.0 = r;
        self.1 = g;
        self.2 = b;
    }

    pub fn decrement_red(&mut self)
        ensures
            *final(self) == Solid(dec(old(self).0), old(self).1, old(self).2),
    {
        self.0 = self.0.saturating_sub(1);
    }

    pub fn decrement_green(&mut self)
        ensures
            *final(self) == Solid(old(self).0, dec(old(self).1), old(self).2),
    {
        self.1 = self.1.saturating_sub(1);
    }

    pub fn decrement_blue(&mut self)
        ensures
            *final(self) == Solid(old(self).0, old(self).1, dec(old(self).2)),
    {
        self.2 = self.2.saturating_sub(1);
    }

    pub fn increment_red(&mut self)
        ensures
            *final(self) == Solid(inc(old(self).0), old(self).1, old(self).2),
    {
        self.0 = self.0.saturating_add(1);
    }

    pub fn increment_green(&mut self)
        ensures
            *final(self) == Solid(old(self).0, inc(old(self).1), old(self).2),
    {
        self.1 = self.1.saturating_add(1);
    }

    pub fn increment_blue(&mut self)
        ensures
            *final(self) == Solid(old(self).0, old(self).1, inc(old(self).2)),
    {
        self.2 = self.2.saturating_add(1);
    }

    pub fn red(&self) -> (r: u8)
        ensures
            r == self.0,
    {
        self.0
    }

    pub fn green(&self) -> (r: u8)
        ensures
            r == self.1,
    {
        self.1
    }

    pub fn blue(&self) -> (r: u8)
        ensures
            r == self.2,
    {
        self.2
    }

    /// The colour as one LED value.
    pub open spec fn rgb(self) -> Rgb {
        Rgb { r: self.0, g: self.1, b: self.2 }
    }

    /// Every LED in this colour.
    pub fn next_matrix(&mut self, _last: LEDMatrix) -> (r: LEDMatrix)
        ensures
            *final(self) == *old(self),
            r.all(old(self).rgb()),
    {
        LEDMatrix::filled(Rgb { r: self.0, g: self.1, b: self.2 })
    }
}

/// `n` increments of one channel from `v`: the value stays in 0..=255 and
/// equals `v + n` capped at 255.
pub open spec fn inc_n(v: u8, n: nat) -> u8
    decreases n,
{
    if n == 0 {
        v
    } else {
        inc(inc_n(v, (n - 1) as nat))
    }
}

/// `n` decrements of one channel from `v`.
pub open spec fn dec_n(v: u8, n: nat) -> u8
    decreases n,
{
    if n == 0 {
        v
    } else {
        dec(dec_n(v, (n - 1) as nat))
    }
}

/// Saturation: any number of increments of a channel gives `v + n` capped at
/// 255, and any number of decrements gives `v - n` floored at 0; a channel
/// never wraps round.
pub proof fn lemma_saturating_steps(v: u8, n: nat)
    ensures
        inc_n(v, n) as int == if v + n > 255 { 255 } else { v + n },
        dec_n(v, n) as int == if v - n < 0 { 0 } else { v - n },
    decreases n,
{
    if n > 0 {
        lemma_saturating_steps(v, (n - 1) as nat);
    }
}

} // verus!
