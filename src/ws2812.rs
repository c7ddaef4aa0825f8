use vstd::prelude::*;

use crate::leds::Rgb;

verus! {

/// The SPI byte that sends two data bits to the strip: each bit becomes a
/// short (`1000`) or long (`1110`) high pulse.
pub open spec fn pattern(bits: u8) -> u8 {
    if bits == 0 {
        0x88
    } else if bits == 1 {
        0x8E
    } else if bits == 2 {
        0xE8
    } else {
        0xEE
    }
}

/// The four SPI bytes of one channel, most significant bits first.
pub open spec fn channel_bytes(v: u8) -> Seq<u8> {
    seq![pattern(v / 64), pattern((v / 16) % 4), pattern((v / 4) % 4), pattern(v % 4)]
}

/// The twelve SPI bytes of one LED: green, red, then blue.
pub open spec fn pixel_bytes(c: Rgb) -> Seq<u8> {
    channel_bytes(c.g) + channel_bytes(c.r) + channel_bytes(c.b)
}

/// The SPI bytes of a run of LEDs, in order.
pub open spec fn wire(values: Seq<Rgb>) -> Seq<u8>
    decreases values.len(),
{
    if values.len() == 0 {
        seq![]
    } else {
        wire(values.drop_last()) + pixel_bytes(values.last())
    }
}

fn pattern_of(bits: u8) -> (r: u8)
    requires
        bits < 4,
    ensures
        r == pattern(bits),
{
    match bits {
        0 => 0x88,
        1 => 0x8E,
        2 => 0xE8,
        _ => 0xEE,
    }
}

fn push_channel(out: &mut Vec<u8>, v: u8)
    ensures
        final(out)@ == old(out)@ + channel_bytes(v),
{
    out.push(pattern_of(v / 64));
    out.push(pattern_of((v / 16) % 4));
    out.push(pattern_of((v / 4) % 4));
    out.push(pattern_of(v % 4));
    assert(out@ =~= old(out)@ + channel_bytes(v));
}

/// The bytes to shift out over SPI so that the strip shows `values`, first
/// LED first.
pub fn encode_pixels(values: &Vec<Rgb>) -> (r: Vec<u8>)
    ensures
        r@ == wire(values@),
        r@.len() == 12 * values@.len(),
{
    let mut out: Vec<u8> = Vec::new();
    let mut i: usize = 0;
    while i < values.len()
        invariant
            i <= values@.len(),
            out@ == wire(values@.subrange(0, i as int)),
            out@.len() == 12 * i,
        decreases values@.len() - i,
    {
        let c = values[i];
        proof {
            let next = values@.subrange(0, i + 1);
            assert(next.drop_last() =~= values@.subrange(0, i as int));
            assert(next.last() == c);
        }
        push_channel(&mut out, c.g);
        push_channel(&mut out, c.r);
        push_channel(&mut out, c.b);
        proof {
            assert(out@ =~= wire(values@.subrange(0, i + 1)));
        }
        i += 1;
    }
    assert(values@.subrange(0, values@.len() as int) =~= values@);
    out
}

} // verus!
