use vstd::prelude::*;

use crate::random::uniform_below;

verus! {

/// A weight of one: trade-off weights count units of 2^-24, the resolution at
/// which `rand` draws a uniform `f32` in [0, 1).
pub const WEIGHT_ONE: u32 = 0x100_0000;

/// How strongly an agent leans toward exploring (`lhs_multiplier`) and toward
/// exploiting (`rhs_multiplier`), in units of 2^-24.
#[derive(Copy, Clone, Debug, PartialEq, Eq, Structural)]
pub struct Tradeoff {
    pub lhs_multiplier: u32,
    pub rhs_multiplier: u32,
}

impl Tradeoff {
    pub fn new(lhs_multiplier: u32, rhs_multiplier: u32) -> (r: Tradeoff)
        ensures
            r.lhs_multiplier == lhs_multiplier,
            r.rhs_multiplier == rhs_multiplier,
    {
        Tradeoff { lhs_multiplier, rhs_multiplier }
    }

    pub fn lhs_multiplier(&self) -> (r: u32)
        ensures
            r == self.lhs_multiplier,
    {
        self.lhs_multiplier
    }

    pub fn rhs_multiplier(&self) -> (r: u32)
        ensures
            r == self.rhs_multiplier,
    {
        self.rhs_multiplier
    }

    pub fn set_lhs_multiplier(&mut self, v: u32)
        ensures
            final(self).lhs_multiplier == v,
            final(self).rhs_multiplier == old(self).rhs_multiplier,
    {
        self.lhs_multiplier = v;
    }

    pub fn set_rhs_multiplier(&mut self, v: u32)
        ensures
            final(self).rhs_multiplier == v,
            final(self).lhs_multiplier == old(self).lhs_multiplier,
    {
        self.rhs_multiplier = v;
    }
}

impl Default for Tradeoff {
    /// Both weights drawn uniformly from [0, 1).
    fn default() -> (r: Tradeoff)
        ensures
            r.lhs_multiplier < WEIGHT_ONE,
            r.rhs_multiplier < WEIGHT_ONE,
    {
        let mut rng = rand::thread_rng();
        let lhs = uniform_below(&mut rng, WEIGHT_ONE);
        let rhs = uniform_below(&mut rng, WEIGHT_ONE);
        Tradeoff { lhs_multiplier: lhs, rhs_multiplier: rhs }
    }
}

} // verus!
