//! A small deterministic pseudo-random generator driving the piece supply.
//! The session owns one, seeded at construction, so every draw is a pure
//! function of the seed.

use vstd::prelude::*;

verus! {

/// A linear congruential generator over the low 31 bits.
#[derive(Clone, Copy, Debug, PartialEq, Eq, Structural)]
pub struct GameRng {
    pub state: u32,
}

impl GameRng {
    /// The successor state: one linear congruential step, reduced mod 2^31.
    pub open spec fn spec_next(state: u32) -> u32 {
        ((state as int * 1103515245 + 12345) % 0x8000_0000) as u32
    }

    /// A generator starting from the given seed.
    pub fn new(seed: u32) -> (r: GameRng)
        ensures
            r.state == seed,
    {
        GameRng { state: seed }
    }

    /// Advances the generator one step and returns the new state.
    pub fn next(&mut self) -> (r: u32)
        ensures
            final(self).state == Self::spec_next(old(self).state),
            r == final(self).state,
            r < 0x8000_0000,
    {
        let t: u64 = (self.state as u64) * 1103515245u64 + 12345u64;
        let m: u64 = t % 0x8000_0000u64;
        self.state = m as u32;
        m as u32
    }

    /// Draws a value below `n`, advancing the generator one step; the
    /// draw is a pure function of the prior state.
    pub fn below(&mut self, n: u32) -> (r: u32)
        requires
            n >= 1,
        ensures
            r < n,
            r == Self::spec_next(old(self).state) % n,
            final(self).state == Self::spec_next(old(self).state),
    {
        let v = self.next();
        v % n
    }
}

} // verus!
