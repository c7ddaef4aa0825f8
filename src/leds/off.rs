use vstd::prelude::*;

use crate::leds::{LEDMatrix, Rgb};

verus! {

/// Every LED dark.
pub struct Off;

impl Off {
    pub fn new() -> Self {
        Off
    }

    pub fn next_matrix(&mut self, _last: LEDMatrix) -> (r: LEDMatrix)
        ensures
            r.all(Rgb::black_spec()),
    {
        LEDMatrix::filled(Rgb::black())
    }
}

} // verus!
