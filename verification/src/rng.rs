//! The simulation's deterministic pseudo-random generator: a seeded,
//! owned xorshift over 64 bits, threaded explicitly through every
//! simulation call so that runs replay exactly.

use vstd::prelude::*;

verus! {

/// One xorshift step over 64 bits.
pub open spec fn spec_xorshift(s: u64) -> u64 {
    let a = s ^ (s << 13);
    let b = a ^ (a >> 7);
    b ^ (b << 17)
}

/// The generator: its whole state is one word.
#[derive(Clone, Copy, PartialEq, Eq, Structural, Debug)]
pub struct SimRng {
    pub state: u64,
}

impl SimRng {
    /// A generator starting from the given seed.
    pub fn new(seed: u64) -> (r: SimRng)
        ensures
            r.state == seed,
    {
        SimRng { state: seed }
    }

    /// The next raw draw; the state advances by one xorshift step.
    pub fn next_u64(&mut self) -> (r: u64)
        ensures
            r == spec_xorshift(old(self).state),
            final(self).state == r,
    {
        let mut s = self.state;
        s = s ^ (s << 13);
        s = s ^ (s >> 7);
        s = s ^ (s << 17);
        self.state = s;
        s
    }

    /// A draw uniform over `[0, n)`.
    pub fn below(&mut self, n: u64) -> (r: u64)
        requires
            n >= 1,
        ensures
            r < n,
            r == spec_xorshift(old(self).state) % n,
            final(self).state == spec_xorshift(old(self).state),
    {
        let x = self.next_u64();
        x % n
    }

    /// A draw uniform over `[0, 1000)`: thousandths of the unit interval.
    pub fn milli(&mut self) -> (r: u64)
        ensures
            r < 1000,
            r == spec_xorshift(old(self).state) % 1000,
            final(self).state == spec_xorshift(old(self).state),
    {
        self.below(1000)
    }
}

} // verus!
