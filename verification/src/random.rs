use vstd::prelude::*;
use crate::gender::RATIO_UNIT;

verus! {

/// A source of randomness, injected by the caller. It offers the two draws
/// the generator needs: a uniform sample from the unit interval (as a
/// fixed-point fraction of `RATIO_UNIT`) and a uniform index below a bound.
/// `draws` counts how many samples have been consumed, so that contracts can
/// state exactly how much randomness a function uses.
pub trait RandomSource {
    /// How many draws this source has handed out so far.
    spec fn draws(&self) -> nat;

    /// Draw a uniform sample from the unit interval, scaled to `RATIO_UNIT`.
    fn next_unit(&mut self) -> (r: u32)
        ensures
            r < RATIO_UNIT,
            final(self).draws() == old(self).draws() + 1,
    ;

    /// Draw a uniform index in `[0, n)`.
    fn next_index(&mut self, n: usize) -> (r: usize)
        requires
            n >= 1,
        ensures
            r < n,
            final(self).draws() == old(self).draws() + 1,
    ;
}

/// A scripted source: it replays a fixed list of values, then zeroes. Each
/// draw takes the next scripted value, reduced into the requested range.
/// Useful wherever a reproducible sequence of draws is wanted.
pub struct FixedSource {
    values: Vec<u32>,
    pos: usize,
    count: Ghost<nat>,
}

impl FixedSource {
    /// The scripted values this source replays.
    pub closed spec fn script(&self) -> Seq<u32> {
        self.values@
    }

    /// How far into the script the source has come.
    pub closed spec fn position(&self) -> nat {
        self.pos as nat
    }

    /// What the next draw will hand out before any range reduction: the
    /// next scripted value, or zero once the script is exhausted.
    pub open spec fn next_value(&self) -> u32 {
        if self.position() < self.script().len() {
            self.script()[self.position() as int]
        } else {
            0
        }
    }

    /// A source that replays `values` in order.
    pub fn new(values: Vec<u32>) -> (r: FixedSource)
        ensures
            r.draws() == 0,
            r.script() == values@,
            r.position() == 0,
    {
        FixedSource { values, pos: 0, count: Ghost(0) }
    }

    /// The next scripted value, or zero once the script is exhausted.
    fn take_next(&mut self) -> (r: u32)
        ensures
            final(self).draws() == old(self).draws() + 1,
            r == old(self).next_value(),
            final(self).script() == old(self).script(),
            final(self).position() == if old(self).position() < old(self).script().len() {
                old(self).position() + 1
            } else {
                old(self).position()
            },
    {
        let r: u32 = if self.pos < self.values.len() {
            let v = self.values[self.pos];
            self.pos = self.pos + 1;
            v
        } else {
            0
        };
        self.count = Ghost(self.count@ + 1);
        r
    }
}

impl RandomSource for FixedSource {
    closed spec fn draws(&self) -> nat {
        self.count@
    }

    fn next_unit(&mut self) -> (r: u32)
        ensures
            r == old(self).next_value() % RATIO_UNIT,
            final(self).script() == old(self).script(),
    {
        let v = self.take_next();
        v % RATIO_UNIT
    }

    fn next_index(&mut self, n: usize) -> (r: usize)
        ensures
            r == (old(self).next_value() as usize) % n,
            final(self).script() == old(self).script(),
    {
        let v = self.take_next();
        (v as usize) % n
    }
}

#[verifier::external_type_specification]
#[verifier::external_body]
pub struct ExStdRng(rand::rngs::StdRng);

/// Relies on rand's `SeedableRng::seed_from_u64` for `StdRng`: builds a
/// generator from a 64-bit seed.
#[verifier::external_body]
fn std_rng_from_seed(seed: u64) -> rand::rngs::StdRng {
    <rand::rngs::StdRng as rand::SeedableRng>::seed_from_u64(seed)
}

/// Relies on rand's `Rng::gen_range` on the range `0..bound`: it panics on an
/// empty range and otherwise returns a uniform sample inside the range.
#[verifier::external_body]
fn std_rng_below(rng: &mut rand::rngs::StdRng, bound: u64) -> (r: u64)
    requires
        bound >= 1,
    ensures
        r < bound,
{
    rand::Rng::gen_range(rng, 0..bound)
}

/// A source backed by rand's standard generator, seeded explicitly so that a
/// run can be reproduced from its seed.
pub struct StdSource {
    rng: rand::rngs::StdRng,
    count: Ghost<nat>,
}

impl StdSource {
    /// A source whose draws are determined by `seed`.
    pub fn from_seed(seed: u64) -> (r: StdSource)
        ensures
            r.draws() == 0,
    {
        StdSource { rng: std_rng_from_seed(seed), count: Ghost(0) }
    }
}

impl RandomSource for StdSource {
    closed spec fn draws(&self) -> nat {
        self.count@
    }

    fn next_unit(&mut self) -> (r: u32) {
        let v = std_rng_below(&mut self.rng, RATIO_UNIT as u64);
        self.count = Ghost(self.count@ + 1);
        v as u32
    }

    fn next_index(&mut self, n: usize) -> (r: usize) {
        let v = std_rng_below(&mut self.rng, n as u64);
        self.count = Ghost(self.count@ + 1);
        v as usize
    }
}

} // verus!
