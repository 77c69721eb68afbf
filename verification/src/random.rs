//! Sources of the random numbers that a simulation draws.

use crate::fixed::ONE;
use rand::rngs::ThreadRng;
use rand::Rng;
use vstd::prelude::*;

verus! {

/// One draw: the range that was asked for, and the value that was given.
pub struct Draw {
    pub min: int,
    pub max: int,
    pub value: int,
}

/// A supply of independent draws.
///
/// A range is given by its two ends and is never empty: a caller that asks
/// for a draw from `min` up to `max` has `min < max`.
pub trait RandomSource {
    /// Every draw that this source has handed out, the oldest first.
    spec fn drawn(&self) -> Seq<Draw>;

    /// A value of the range that starts at `min` and ends before `max`. The
    /// draw is written down behind those made before.
    fn uniform(&mut self, min: i64, max: i64) -> (r: i64)
        requires
            min < max,
        ensures
            min <= r < max,
            final(self).drawn() == old(self).drawn().push(
                Draw { min: min as int, max: max as int, value: r as int },
            ),
    ;
}

/// `rand::rngs::ThreadRng`, the handle that `rand::thread_rng` gives. It is
/// carried through unread.
#[verifier::external_type_specification]
#[verifier::external_body]
pub struct ExThreadRng(ThreadRng);

/// `rand::thread_rng`: a handle to the generator of the running thread, which
/// the operating system seeds on first use; the call fails where the system
/// has no seed to give. Nothing is claimed of the handle.
pub assume_specification[ rand::thread_rng ]() -> ThreadRng;

/// `Rng::gen_range` on `ThreadRng`, for `i64`: the value drawn is at least
/// `low` and less than `high`. The call panics on an empty range, which the
/// precondition leaves out.
#[verifier::external_body]
fn gen_range(rng: &mut ThreadRng, low: i64, high: i64) -> (r: i64)
    requires
        low < high,
    ensures
        low <= r < high,
{
    rng.gen_range(low, high)
}

/// Draws from the generator of the running thread, evenly over each range.
pub struct ThreadSource {
    rng: ThreadRng,
    drawn: Ghost<Seq<Draw>>,
}

impl ThreadSource {
    /// A source on the generator of the running thread, which has handed
    /// out nothing yet.
    pub fn new() -> (source: ThreadSource)
        ensures
            source.drawn() == Seq::<Draw>::empty(),
    {
        ThreadSource { rng: rand::thread_rng(), drawn: Ghost(Seq::empty()) }
    }
}

impl RandomSource for ThreadSource {
    closed spec fn drawn(&self) -> Seq<Draw> {
        self.drawn@
    }

    fn uniform(&mut self, min: i64, max: i64) -> (r: i64) {
        let r: i64 = gen_range(&mut self.rng, min, max);
        self.drawn = Ghost(
            self.drawn@.push(Draw { min: min as int, max: max as int, value: r as int }),
        );
        r
    }
}

/// Where in a range the draw of a [`Fraction`] with the given level lies.
pub open spec fn fraction_of(min: int, max: int, level: int) -> int {
    min + (max - min) * level / (ONE as int)
}

/// A source without chance: every draw lies the same fraction of the way
/// through its range. It makes a run reproducible.
pub struct Fraction {
    level: i64,
    drawn: Ghost<Seq<Draw>>,
}

impl Fraction {
    #[verifier::type_invariant]
    spec fn level_below_one(self) -> bool {
        0 <= self.level < ONE
    }

    /// The fraction, in millionths, at which every draw is taken.
    pub closed spec fn level(self) -> int {
        self.level as int
    }

    /// A source at `level` millionths of each range, where `level` is a
    /// fraction: at least zero and less than one. It has handed out nothing
    /// yet.
    pub fn new(level: i64) -> (source: Option<Fraction>)
        ensures
            source.is_some() <==> 0 <= level < ONE,
            source matches Some(s) ==> s.level() == level && s.drawn() == Seq::<Draw>::empty(),
    {
        if 0 <= level && level < ONE {
            Some(Fraction { level, drawn: Ghost(Seq::empty()) })
        } else {
            None
        }
    }
}

impl RandomSource for Fraction {
    closed spec fn drawn(&self) -> Seq<Draw> {
        self.drawn@
    }

    fn uniform(&mut self, min: i64, max: i64) -> (r: i64)
        ensures
            r == fraction_of(min as int, max as int, old(self).level()),
            final(self).level() == old(self).level(),
    {
        proof {
            use_type_invariant(&*self);
        }
        let width: i128 = max as i128 - min as i128;
        let level: i128 = self.level as i128;
        assert(0 <= width * level <= width * 999_999) by (nonlinear_arith)
            requires
                0 < width,
                0 <= level <= 999_999,
        ;
        let offset: i128 = width * level / (ONE as i128);
        let r: i64 = (min as i128 + offset) as i64;
        self.drawn = Ghost(
            self.drawn@.push(Draw { min: min as int, max: max as int, value: r as int }),
        );
        r
    }
}

} // verus!
