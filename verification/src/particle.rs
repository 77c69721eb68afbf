//! One particle: where it is, how large it is, and how fast it moves.

use crate::fixed::{fixed_product, fixed_sum, product, sum, ONE};
use crate::random::{Draw, RandomSource};
use crate::surface::Circle;
use vstd::math::abs;
use vstd::prelude::*;

verus! {

/// How strongly a draw from the range of -1 to 1 changes a speed: 0.01.
pub const DRIFT: i64 = 10_000;

/// The upper bound of the simulation area along x: 100. It is a fixed size
/// of its own and not that of the surface.
pub const WIDTH: i64 = 100_000_000;

/// The upper bound of the simulation area along y: 100.
pub const HEIGHT: i64 = 100_000_000;

/// The speed, on each axis, of a particle that was just made: 0.001.
pub const INITIAL_SPEED: i64 = 1_000;

/// The smallest radius of a particle that was made at random: 1.
pub const MIN_RADIUS: i64 = 1_000_000;

/// The bound below which the radius of such a particle stays: 30.
pub const MAX_RADIUS: i64 = 30_000_000;

/// A particle as five numbers, each counting millionths. The position is a
/// fraction of the surface's size, the radius is in pixels.
pub struct Body {
    pub x: int,
    pub y: int,
    pub radius: int,
    pub speed_x: int,
    pub speed_y: int,
}

/// What the random source hands out during one step of one particle: for
/// each axis the kick that makes the speed drift, and the factor that damps
/// the speed. A factor counts only where the particle has left the
/// simulation area on its axis.
#[derive(Clone, Copy, Debug, PartialEq, Eq)]
pub struct Draws {
    pub kick_x: i64,
    pub kick_y: i64,
    pub factor_x: i64,
    pub factor_y: i64,
}

/// Whether a position has left the simulation area, which reaches from 0 to
/// `bound` on the axis in question.
pub open spec fn outside(position: int, bound: int) -> bool {
    position < 0 || position > bound
}

/// Whether `factor` may have been drawn to damp a particle at `position`:
/// below the area it is a fraction of one, beyond the area the negation of
/// such a fraction without zero. Inside the area none is drawn.
pub open spec fn factor_fits(position: int, bound: int, factor: int) -> bool {
    &&& position < 0 ==> 0 <= factor < ONE
    &&& position > bound ==> -ONE <= factor < 0
}

/// The speed on one axis after damping: scaled by the factor where the
/// particle is outside the area, and left alone inside.
pub open spec fn damped(position: int, bound: int, speed: int, factor: int) -> int {
    if outside(position, bound) {
        fixed_product(speed, factor)
    } else {
        speed
    }
}

/// What damping asks of the source for an axis on which the particle is at
/// `position`: a fraction of one where that is below the area, else nothing.
pub open spec fn asked_below(position: int, factor: int) -> Seq<Draw> {
    if position < 0 {
        seq![Draw { min: 0, max: ONE as int, value: factor }]
    } else {
        Seq::empty()
    }
}

/// What damping asks of the source for an axis on which the particle is at
/// `position`: the negation of a fraction of one where that is beyond
/// `bound`, else nothing.
pub open spec fn asked_beyond(position: int, bound: int, factor: int) -> Seq<Draw> {
    if position > bound {
        seq![Draw { min: -ONE, max: 0, value: factor }]
    } else {
        Seq::empty()
    }
}

impl Draws {
    /// Whether these draws can occur in a step of `body` over `dt`.
    pub open spec fn fits(self, body: Body, dt: int) -> bool {
        &&& -ONE <= self.kick_x < ONE
        &&& -ONE <= self.kick_y < ONE
        &&& factor_fits(body.moved(dt).x, WIDTH as int, self.factor_x as int)
        &&& factor_fits(body.moved(dt).y, HEIGHT as int, self.factor_y as int)
    }
}

impl Body {
    /// Every number fits an `i64`.
    pub open spec fn bounded(self) -> bool {
        &&& i64::MIN <= self.x <= i64::MAX
        &&& i64::MIN <= self.y <= i64::MAX
        &&& i64::MIN <= self.radius <= i64::MAX
        &&& i64::MIN <= self.speed_x <= i64::MAX
        &&& i64::MIN <= self.speed_y <= i64::MAX
    }

    /// Every number fits an `i64`, and the radius is positive.
    pub open spec fn valid(self) -> bool {
        self.bounded() && self.radius > 0
    }

    /// A particle as it is made at random: somewhere in the unit square,
    /// with a radius from 1 up to 30, and with the initial speed.
    pub open spec fn fresh(self) -> bool {
        &&& 0 <= self.x < ONE
        &&& 0 <= self.y < ONE
        &&& MIN_RADIUS <= self.radius < MAX_RADIUS
        &&& self.speed_x == INITIAL_SPEED
        &&& self.speed_y == INITIAL_SPEED
    }

    /// The position advanced by the speed over `dt`.
    pub open spec fn moved(self, dt: int) -> Body {
        Body {
            x: fixed_sum(self.x, fixed_product(self.speed_x, dt)),
            y: fixed_sum(self.y, fixed_product(self.speed_y, dt)),
            radius: self.radius,
            speed_x: self.speed_x,
            speed_y: self.speed_y,
        }
    }

    /// The speed after a kick on each axis, each drawn from -1 to 1.
    pub open spec fn kicked(self, kick_x: int, kick_y: int) -> Body {
        Body {
            x: self.x,
            y: self.y,
            radius: self.radius,
            speed_x: fixed_sum(self.speed_x, fixed_product(kick_x, DRIFT as int)),
            speed_y: fixed_sum(self.speed_y, fixed_product(kick_y, DRIFT as int)),
        }
    }

    /// The speed damped on each axis on which the particle is outside the
    /// area. The position stays as it is: the bound is a soft one.
    pub open spec fn slowed(self, factor_x: int, factor_y: int) -> Body {
        Body {
            x: self.x,
            y: self.y,
            radius: self.radius,
            speed_x: damped(self.x, WIDTH as int, self.speed_x, factor_x),
            speed_y: damped(self.y, HEIGHT as int, self.speed_y, factor_y),
        }
    }

    /// One step over `dt` with the given draws: move, drift, damp.
    pub open spec fn stepped(self, dt: int, draws: Draws) -> Body {
        self.moved(dt).kicked(draws.kick_x as int, draws.kick_y as int).slowed(
            draws.factor_x as int,
            draws.factor_y as int,
        )
    }

    /// Whether one step over `dt` with `draws` from a source leads from
    /// this particle to `next`.
    pub open spec fn steps_with(self, dt: int, draws: Draws, next: Body) -> bool {
        draws.fits(self, dt) && next == self.stepped(dt, draws)
    }

    /// Whether one step over `dt` can lead from this particle to `next`.
    pub open spec fn steps_to(self, dt: int, next: Body) -> bool {
        exists|draws: Draws| #[trigger] self.steps_with(dt, draws, next)
    }

    /// What a step over `dt` asks of the source, where `draws` is what it
    /// is given: a kick for x and one for y, then a factor for each of x and
    /// y that is below the area after the move, then a factor for each of x
    /// and y that is beyond it.
    pub open spec fn asks(self, dt: int, draws: Draws) -> Seq<Draw> {
        seq![
            Draw { min: -ONE, max: ONE as int, value: draws.kick_x as int },
            Draw { min: -ONE, max: ONE as int, value: draws.kick_y as int },
        ] + asked_below(self.moved(dt).x, draws.factor_x as int) + asked_below(
            self.moved(dt).y,
            draws.factor_y as int,
        ) + asked_beyond(self.moved(dt).x, WIDTH as int, draws.factor_x as int) + asked_beyond(
            self.moved(dt).y,
            HEIGHT as int,
            draws.factor_y as int,
        )
    }

    /// Whether one step over `dt` leads from this particle to `next` while
    /// the source, which had handed out `drawn` before it, hands out what
    /// the step asks for and has `now` behind it in the end.
    pub open spec fn updates_to(
        self,
        dt: int,
        next: Body,
        drawn: Seq<Draw>,
        now: Seq<Draw>,
    ) -> bool {
        exists|draws: Draws|
            #![trigger self.steps_with(dt, draws, next)]
            self.steps_with(dt, draws, next) && now == drawn + self.asks(dt, draws)
    }

    /// What making this particle at random has asked of the source: its
    /// position along x, then along y, then its radius.
    pub open spec fn birth(self) -> Seq<Draw> {
        seq![
            Draw { min: 0, max: ONE as int, value: self.x },
            Draw { min: 0, max: ONE as int, value: self.y },
            Draw { min: MIN_RADIUS as int, max: MAX_RADIUS as int, value: self.radius },
        ]
    }

    /// The circle that shows this particle on a surface of the given size.
    /// The position along x is scaled by the height and the position along y
    /// by the width.
    pub open spec fn circle(self, width: int, height: int) -> Circle {
        Circle {
            x: fixed_product(self.x, height) as i64,
            y: fixed_product(self.y, width) as i64,
            radius: self.radius as i64,
        }
    }

    /// The radius of a particle never changes, however many steps it takes:
    /// in a run of the simulation every state has the radius of the first.
    pub proof fn lemma_radius_is_constant(path: Seq<Body>, dts: Seq<int>, i: int)
        requires
            is_run(path, dts),
            0 <= i < path.len(),
        ensures
            path[i].radius == path[0].radius,
        decreases i,
    {
        if i > 0 {
            Self::lemma_radius_is_constant(path, dts, i - 1);
            assert(path[i - 1].steps_to(dts[i - 1], path[i - 1 + 1]));
        }
    }

    /// A step over no time leaves the particle where it is. Its speed may
    /// still have drifted.
    pub proof fn lemma_rest_keeps_position(self, next: Body)
        requires
            self.valid(),
            self.steps_to(0, next),
        ensures
            next.x == self.x,
            next.y == self.y,
    {
        crate::fixed::lemma_product_zero(self.speed_x);
        crate::fixed::lemma_product_zero(self.speed_y);
    }

    /// Damping never amplifies. After a step the speed on each axis is at
    /// most, in magnitude, what it was after the kick. Below the area it has
    /// kept its direction or come to rest; beyond the area it has turned
    /// round or come to rest.
    pub proof fn lemma_damping_never_amplifies(self, dt: int, draws: Draws)
        requires
            draws.fits(self, dt),
        ensures
            abs(self.stepped(dt, draws).speed_x) <= abs(
                self.kicked(draws.kick_x as int, draws.kick_y as int).speed_x,
            ),
            abs(self.stepped(dt, draws).speed_y) <= abs(
                self.kicked(draws.kick_x as int, draws.kick_y as int).speed_y,
            ),
            self.moved(dt).x < 0 ==> toward_rest(
                self.kicked(draws.kick_x as int, draws.kick_y as int).speed_x,
                self.stepped(dt, draws).speed_x,
            ),
            self.moved(dt).y < 0 ==> toward_rest(
                self.kicked(draws.kick_x as int, draws.kick_y as int).speed_y,
                self.stepped(dt, draws).speed_y,
            ),
            self.moved(dt).x > WIDTH ==> toward_rest(
                -self.kicked(draws.kick_x as int, draws.kick_y as int).speed_x,
                self.stepped(dt, draws).speed_x,
            ),
            self.moved(dt).y > HEIGHT ==> toward_rest(
                -self.kicked(draws.kick_x as int, draws.kick_y as int).speed_y,
                self.stepped(dt, draws).speed_y,
            ),
    {
        let kicked = self.moved(dt).kicked(draws.kick_x as int, draws.kick_y as int);
        if outside(kicked.x, WIDTH as int) {
            crate::fixed::lemma_product_shrinks(kicked.speed_x, draws.factor_x as int);
        }
        if outside(kicked.y, HEIGHT as int) {
            crate::fixed::lemma_product_shrinks(kicked.speed_y, draws.factor_y as int);
        }
    }

    /// A particle on the lower bound of an axis that heads out of the area
    /// is no faster on that axis after a step than before, as long as the
    /// kick of that step has not itself made it faster: the kick comes
    /// before the damping, and damping only holds back what the kick has
    /// left.
    pub proof fn lemma_slower_at_lower_bound(self, dt: int, draws: Draws)
        requires
            draws.fits(self, dt),
        ensures
            self.x == 0 && self.speed_x < 0 && abs(
                self.kicked(draws.kick_x as int, draws.kick_y as int).speed_x,
            ) <= abs(self.speed_x) ==> abs(self.stepped(dt, draws).speed_x) <= abs(self.speed_x),
            self.y == 0 && self.speed_y < 0 && abs(
                self.kicked(draws.kick_x as int, draws.kick_y as int).speed_y,
            ) <= abs(self.speed_y) ==> abs(self.stepped(dt, draws).speed_y) <= abs(self.speed_y),
    {
        self.lemma_damping_never_amplifies(dt, draws);
    }
}

/// Whether `after` lies between rest and `before`, ends included.
pub open spec fn toward_rest(before: int, after: int) -> bool {
    0 <= after <= before || before <= after <= 0
}

/// Whether `path` is a run of the simulation: every state in it steps to the
/// one after it, over the entry of `dts` at the same place.
pub open spec fn is_run(path: Seq<Body>, dts: Seq<int>) -> bool {
    &&& path.len() == dts.len() + 1
    &&& forall|i: int| 0 <= i < dts.len() ==> path[i].steps_to(#[trigger] dts[i], path[i + 1])
}

/// A particle of the simulation.
#[derive(Clone, Copy, Debug, PartialEq, Eq)]
pub struct Particle {
    x: i64,
    y: i64,
    radius: i64,
    speed_x: i64,
    speed_y: i64,
}

impl View for Particle {
    type V = Body;

    closed spec fn view(&self) -> Body {
        Body {
            x: self.x as int,
            y: self.y as int,
            radius: self.radius as int,
            speed_x: self.speed_x as int,
            speed_y: self.speed_y as int,
        }
    }
}

impl Particle {
    #[verifier::type_invariant]
    spec fn radius_is_positive(self) -> bool {
        self.radius > 0
    }

    /// The numbers of every particle fit an `i64`.
    pub proof fn lemma_bounded(self)
        ensures
            self@.bounded(),
    {
    }

    /// A particle with the given position, radius and speed.
    pub fn new(x: i64, y: i64, radius: i64, speed_x: i64, speed_y: i64) -> (particle: Particle)
        requires
            radius > 0,
        ensures
            particle@ == (Body {
                x: x as int,
                y: y as int,
                radius: radius as int,
                speed_x: speed_x as int,
                speed_y: speed_y as int,
            }),
    {
        Particle { x, y, radius, speed_x, speed_y }
    }

    /// A particle at a random place of the unit square, with a random radius
    /// from 1 up to 30, and with the initial speed. The source is asked for
    /// x, then y, then the radius, and for nothing else.
    pub fn random<R: RandomSource>(rng: &mut R) -> (particle: Particle)
        ensures
            particle@.fresh(),
            final(rng).drawn() == old(rng).drawn() + particle@.birth(),
    {
        let x: i64 = rng.uniform(0, ONE);
        let y: i64 = rng.uniform(0, ONE);
        let radius: i64 = rng.uniform(MIN_RADIUS, MAX_RADIUS);
        let particle = Particle { x, y, radius, speed_x: INITIAL_SPEED, speed_y: INITIAL_SPEED };
        assert(rng.drawn() =~= old(rng).drawn() + particle@.birth());
        particle
    }

    /// The position along x.
    pub fn x(&self) -> (x: i64)
        ensures
            x == self@.x,
    {
        self.x
    }

    /// The position along y.
    pub fn y(&self) -> (y: i64)
        ensures
            y == self@.y,
    {
        self.y
    }

    /// The radius, which is positive.
    pub fn radius(&self) -> (radius: i64)
        ensures
            radius == self@.radius,
            radius > 0,
    {
        proof {
            use_type_invariant(self);
        }
        self.radius
    }

    /// The speed along x.
    pub fn speed_x(&self) -> (speed: i64)
        ensures
            speed == self@.speed_x,
    {
        self.speed_x
    }

    /// The speed along y.
    pub fn speed_y(&self) -> (speed: i64)
        ensures
            speed == self@.speed_y,
    {
        self.speed_y
    }

    /// Whether the particle lies beyond `width` along x or beyond `height`
    /// along y.
    pub fn is_out_of_screen(self, width: i64, height: i64) -> (out: bool)
        ensures
            out == (self@.x > width || self@.y > height),
    {
        self.x > width || self.y > height
    }

    /// The circle that shows the particle on a surface of the given size.
    pub fn describe(&self, width: i64, height: i64) -> (circle: Circle)
        ensures
            circle == self@.circle(width as int, height as int),
            circle.x == fixed_product(self@.x, height as int),
            circle.y == fixed_product(self@.y, width as int),
            circle.radius == self@.radius,
    {
        Circle { x: product(self.x, height), y: product(self.y, width), radius: self.radius }
    }

    /// Advances the position by the speed over `dt`.
    fn advance(&mut self, dt: i64)
        ensures
            final(self)@ == old(self)@.moved(dt as int),
    {
        proof {
            use_type_invariant(&*self);
        }
        self.x = sum(self.x, product(self.speed_x, dt));
        self.y = sum(self.y, product(self.speed_y, dt));
    }

    /// Lets the speed drift by one kick on each axis.
    fn kick(&mut self, kick_x: i64, kick_y: i64)
        ensures
            final(self)@ == old(self)@.kicked(kick_x as int, kick_y as int),
    {
        proof {
            use_type_invariant(&*self);
        }
        self.speed_x = sum(self.speed_x, product(kick_x, DRIFT));
        self.speed_y = sum(self.speed_y, product(kick_y, DRIFT));
    }

    /// Damps the speed on each axis on which the particle is outside the
    /// area.
    fn slow(&mut self, factor_x: i64, factor_y: i64)
        ensures
            final(self)@ == old(self)@.slowed(factor_x as int, factor_y as int),
    {
        proof {
            use_type_invariant(&*self);
        }
        if self.x < 0 || self.x > WIDTH {
            self.speed_x = product(self.speed_x, factor_x);
        }
        if self.y < 0 || self.y > HEIGHT {
            self.speed_y = product(self.speed_y, factor_y);
        }
    }

    /// One step of the simulation over `dt` with draws that the caller
    /// supplies: move, drift, damp. Any numbers are taken as draws, and any
    /// `dt`, a negative one too.
    pub fn step(&mut self, dt: i64, draws: Draws)
        ensures
            final(self)@ == old(self)@.stepped(dt as int, draws),
    {
        self.advance(dt);
        self.kick(draws.kick_x, draws.kick_y);
        self.slow(draws.factor_x, draws.factor_y);
    }

    /// One step of the simulation over `dt` with draws from `rng`.
    ///
    /// The position advances by the speed over `dt`. Then the speed drifts
    /// on each axis by a draw from -1 to 1, scaled by [`DRIFT`]. Then, on
    /// each axis on which the new position is below 0, the speed is scaled
    /// by a draw from 0 to 1, and where it is beyond the area, by a draw
    /// from -1 to 0. The source is asked for the two kicks, then for the
    /// factors of x and y below the area, then for those beyond it.
    ///
    /// A negative `dt` is taken as it is: the particle moves backwards.
    pub fn update<R: RandomSource>(&mut self, dt: i64, rng: &mut R)
        ensures
            old(self)@.updates_to(
                dt as int,
                final(self)@,
                old(rng).drawn(),
                final(rng).drawn(),
            ),
            old(self)@.steps_to(dt as int, final(self)@),
            final(self)@.valid(),
            final(self)@.radius == old(self)@.radius,
            final(self)@.x == old(self)@.moved(dt as int).x,
            final(self)@.y == old(self)@.moved(dt as int).y,
            dt == 0 ==> final(self)@.x == old(self)@.x && final(self)@.y == old(self)@.y,
    {
        proof {
            use_type_invariant(&*self);
            crate::fixed::lemma_product_zero(self.speed_x as int);
            crate::fixed::lemma_product_zero(self.speed_y as int);
        }
        self.advance(dt);
        let kick_x: i64 = rng.uniform(-ONE, ONE);
        let kick_y: i64 = rng.uniform(-ONE, ONE);
        self.kick(kick_x, kick_y);
        let mut factor_x: i64 = 0;
        let mut factor_y: i64 = 0;
        if self.x < 0 {
            factor_x = rng.uniform(0, ONE);
        }
        if self.y < 0 {
            factor_y = rng.uniform(0, ONE);
        }
        if self.x > WIDTH {
            factor_x = rng.uniform(-ONE, 0);
        }
        if self.y > HEIGHT {
            factor_y = rng.uniform(-ONE, 0);
        }
        self.slow(factor_x, factor_y);
        proof {
            let draws = Draws { kick_x, kick_y, factor_x, factor_y };
            assert(old(self)@.steps_with(dt as int, draws, self@));
            assert(rng.drawn() =~= old(rng).drawn() + old(self)@.asks(dt as int, draws));
        }
    }
}

} // verus!
