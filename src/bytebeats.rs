//! The integer side of the byte-beat source: which formula tick a frame
//! reads, and which byte of the formula's value is played.
use vstd::prelude::*;

verus! {

/// Ticks per second at which byte-beat formulas are written.
pub const BYTEBEAT_RATE: u64 = 8000;

/// The tick of frame `frame` at `sample_rate` frames per second, saturated
/// to the 32-bit counter the formulas see. At a zero rate every frame after
/// the first lies past the end of the counter.
pub open spec fn spec_tick(frame: u64, sample_rate: u32) -> int {
    if sample_rate == 0 {
        if frame == 0 {
            0
        } else {
            u32::MAX as int
        }
    } else {
        let t = (frame as int * BYTEBEAT_RATE as int) / sample_rate as int;
        if t > u32::MAX as int {
            u32::MAX as int
        } else {
            t
        }
    }
}

/// The formula tick that frame `frame` plays.
pub fn bytebeat_tick(frame: u64, sample_rate: u32) -> (r: u32)
    ensures
        r as int == spec_tick(frame, sample_rate),
{
    if sample_rate == 0 {
        return if frame == 0 {
            0
        } else {
            u32::MAX
        };
    }
    assert(frame as int * 8000 <= 0xFFFF_FFFF_FFFF_FFFF * 8000) by (nonlinear_arith)
        requires
            frame as int <= 0xFFFF_FFFF_FFFF_FFFF,
    ;
    let t: u128 = (frame as u128 * BYTEBEAT_RATE as u128) / sample_rate as u128;
    if t > u32::MAX as u128 {
        u32::MAX
    } else {
        t as u32
    }
}

/// The level played for a formula value: its lowest byte.
pub fn bytebeat_level(value: u32) -> (r: u8)
    ensures
        r as int == value as int % 256,
{
    (value % 256) as u8
}

/// The frame counter of a byte-beat source: it tells the formula
/// evaluator which tick each frame plays.
pub struct BytebeatClock {
    sample_rate: u32,
    frame: u64,
}

impl BytebeatClock {
    pub closed spec fn spec_sample_rate(&self) -> u32 {
        self.sample_rate
    }

    pub closed spec fn spec_frame(&self) -> u64 {
        self.frame
    }

    /// A clock at `sample_rate`, before the first frame.
    pub fn new(sample_rate: u32) -> (r: BytebeatClock)
        ensures
            r.spec_sample_rate() == sample_rate,
            r.spec_frame() == 0,
    {
        BytebeatClock { sample_rate, frame: 0 }
    }

    /// The tick of the current frame; the clock moves to the next frame.
    pub fn next_tick(&mut self) -> (r: u32)
        ensures
            r as int == spec_tick(old(self).spec_frame(), old(self).spec_sample_rate()),
            final(self).spec_frame() == (old(self).spec_frame() + 1) % 0x1_0000_0000_0000_0000,
            final(self).spec_sample_rate() == old(self).spec_sample_rate(),
    {
        let t = bytebeat_tick(self.frame, self.sample_rate);
        self.frame = self.frame.wrapping_add(1);
        t
    }
}

} // verus!
