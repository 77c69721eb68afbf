//! The population of particles: made once, then stepped and drawn as a whole.

use crate::particle::{Body, Draws, Particle};
use crate::random::{Draw, RandomSource};
use crate::surface::{red, Command, FULL_TURN};
use vstd::prelude::*;

verus! {

/// The arcs that draw `bodies`, in their order, on a surface of the given
/// size: for each particle one arc round the whole of its circle, in red.
pub open spec fn picture(bodies: Seq<Body>, width: int, height: int) -> Seq<Command> {
    Seq::new(
        bodies.len(),
        |i: int|
            Command::Arc {
                color: red(),
                circle: bodies[i].circle(width, height),
                start: 0,
                end: FULL_TURN,
            },
    )
}

/// Whether one step over `dt` of every particle can lead from `before` to
/// `after`. No particle is added, lost or moved to another place.
pub open spec fn all_step(before: Seq<Body>, dt: int, after: Seq<Body>) -> bool {
    &&& after.len() == before.len()
    &&& forall|i: int| 0 <= i < before.len() ==> (#[trigger] before[i]).steps_to(dt, after[i])
}

/// Whether one step over `dt` of every particle leads from `before` to
/// `after`, where `draws` holds, for each particle, what its step is given.
pub open spec fn all_step_with(
    before: Seq<Body>,
    dt: int,
    draws: Seq<Draws>,
    after: Seq<Body>,
) -> bool {
    &&& after.len() == before.len()
    &&& draws.len() == before.len()
    &&& forall|i: int|
        0 <= i < before.len() ==> (#[trigger] before[i]).steps_with(dt, draws[i], after[i])
}

/// What the steps over `dt` of `bodies` ask of the source, particle after
/// particle, where `draws` holds what each step is given.
pub open spec fn asked_by_all(bodies: Seq<Body>, dt: int, draws: Seq<Draws>) -> Seq<Draw>
    decreases bodies.len(),
{
    if bodies.len() == 0 {
        Seq::empty()
    } else {
        asked_by_all(bodies.drop_last(), dt, draws.drop_last()) + bodies.last().asks(
            dt,
            draws.last(),
        )
    }
}

/// Whether an update over `dt` leads from `before` to `after` while the
/// source, which had handed out `drawn` before it, hands out what the steps
/// of the particles ask for, one particle after the other, and has `now`
/// behind it in the end.
pub open spec fn updated(
    before: Seq<Body>,
    dt: int,
    after: Seq<Body>,
    drawn: Seq<Draw>,
    now: Seq<Draw>,
) -> bool {
    exists|draws: Seq<Draws>|
        #![trigger all_step_with(before, dt, draws, after)]
        all_step_with(before, dt, draws, after) && now == drawn + asked_by_all(before, dt, draws)
}

/// What making `bodies` at random has asked of the source, particle after
/// particle.
pub open spec fn births(bodies: Seq<Body>) -> Seq<Draw>
    decreases bodies.len(),
{
    if bodies.len() == 0 {
        Seq::empty()
    } else {
        births(bodies.drop_last()) + bodies.last().birth()
    }
}

/// The particles as their views.
spec fn bodies_of(particles: Seq<Particle>) -> Seq<Body> {
    Seq::new(particles.len(), |i: int| particles[i]@)
}

/// The particles of a simulation, in the order in which they are drawn.
pub struct ParticleSystem {
    particles: Vec<Particle>,
}

impl View for ParticleSystem {
    type V = Seq<Body>;

    closed spec fn view(&self) -> Seq<Body> {
        bodies_of(self.particles@)
    }
}

impl ParticleSystem {
    /// The numbers of every particle of a system fit an `i64`.
    pub proof fn lemma_bounded(self)
        ensures
            forall|i: int| 0 <= i < self@.len() ==> (#[trigger] self@[i]).bounded(),
    {
        assert forall|i: int| 0 <= i < self@.len() implies (#[trigger] self@[i]).bounded() by {
            self.particles@[i].lemma_bounded();
        }
    }

    /// The system of the given particles.
    pub fn new(particles: Vec<Particle>) -> (system: ParticleSystem)
        ensures
            system@.len() == particles@.len(),
            forall|i: int| 0 <= i < particles@.len() ==> system@[i] == particles@[i]@,
    {
        ParticleSystem { particles }
    }

    /// A system of `n` particles, each made at random; of none where `n` is
    /// not positive. The source is asked for one particle after the other,
    /// and for nothing else.
    pub fn create<R: RandomSource>(n: i64, rng: &mut R) -> (system: ParticleSystem)
        ensures
            system@.len() == if n > 0 { n as int } else { 0 },
            forall|i: int| 0 <= i < system@.len() ==> (#[trigger] system@[i]).fresh(),
            final(rng).drawn() == old(rng).drawn() + births(system@),
    {
        let mut particles: Vec<Particle> = Vec::new();
        let mut made: i64 = 0;
        assert(rng.drawn() =~= old(rng).drawn() + births(bodies_of(particles@)));
        while made < n
            invariant
                0 <= made,
                made <= n || made == 0,
                particles@.len() == made,
                forall|i: int| 0 <= i < made ==> (#[trigger] particles@[i])@.fresh(),
                rng.drawn() == old(rng).drawn() + births(bodies_of(particles@)),
            decreases n - made,
        {
            let ghost before = particles@;
            let particle = Particle::random(rng);
            particles.push(particle);
            made = made + 1;
            proof {
                let bodies = bodies_of(particles@);
                assert(bodies.drop_last() =~= bodies_of(before));
                assert(bodies.last() == particle@);
                assert(rng.drawn() =~= old(rng).drawn() + births(bodies));
            }
        }
        ParticleSystem { particles }
    }

    /// How many particles there are.
    pub fn len(&self) -> (n: usize)
        ensures
            n == self@.len(),
    {
        self.particles.len()
    }

    /// The particle at place `i`.
    pub fn get(&self, i: usize) -> (particle: Particle)
        requires
            i < self@.len(),
        ensures
            particle@ == self@[i as int],
    {
        self.particles[i]
    }

    /// One step over `dt` of every particle, in order. The source is asked
    /// for what the first particle's step needs, then the second's, and so
    /// on, and for nothing else.
    pub fn update<R: RandomSource>(&mut self, dt: i64, rng: &mut R)
        ensures
            updated(old(self)@, dt as int, final(self)@, old(rng).drawn(), final(rng).drawn()),
            all_step(old(self)@, dt as int, final(self)@),
            forall|i: int|
                0 <= i < old(self)@.len() ==> (#[trigger] final(self)@[i]).radius == old(
                    self,
                )@[i].radius,
            dt == 0 ==> forall|i: int|
                0 <= i < old(self)@.len() ==> (#[trigger] final(self)@[i]).x == old(self)@[i].x
                    && final(self)@[i].y == old(self)@[i].y,
    {
        let n: usize = self.particles.len();
        let mut i: usize = 0;
        let ghost mut used: Seq<Draws> = Seq::empty();
        assert(old(self)@.take(0) =~= Seq::<Body>::empty());
        assert(rng.drawn() =~= old(rng).drawn() + asked_by_all(
            old(self)@.take(0),
            dt as int,
            used,
        ));
        while i < n
            invariant
                i <= n,
                self.particles@.len() == n,
                old(self).particles@.len() == n,
                used.len() == i,
                forall|j: int|
                    0 <= j < i ==> (#[trigger] old(self).particles@[j])@.steps_with(
                        dt as int,
                        used[j],
                        self.particles@[j]@,
                    ),
                forall|j: int|
                    0 <= j < i ==> (#[trigger] self.particles@[j])@.radius == old(
                        self,
                    ).particles@[j]@.radius,
                dt == 0 ==> forall|j: int|
                    0 <= j < i ==> (#[trigger] self.particles@[j])@.x == old(
                        self,
                    ).particles@[j]@.x && self.particles@[j]@.y == old(self).particles@[j]@.y,
                forall|j: int| i <= j < n ==> self.particles@[j] == old(self).particles@[j],
                rng.drawn() == old(rng).drawn() + asked_by_all(
                    old(self)@.take(i as int),
                    dt as int,
                    used,
                ),
            decreases n - i,
        {
            let ghost drawn_before = rng.drawn();
            let ghost was = self.particles@[i as int]@;
            let mut particle: Particle = self.particles[i];
            particle.update(dt, rng);
            self.particles.set(i, particle);
            proof {
                let draws = choose|draws: Draws|
                    #![trigger was.steps_with(dt as int, draws, particle@)]
                    was.steps_with(dt as int, draws, particle@) && rng.drawn() == drawn_before
                        + was.asks(dt as int, draws);
                assert(was.steps_with(dt as int, draws, particle@));
                let longer = used.push(draws);
                let bodies = old(self)@.take(i as int + 1);
                assert(bodies.drop_last() =~= old(self)@.take(i as int));
                assert(bodies.last() == was);
                assert(longer.drop_last() =~= used);
                assert(rng.drawn() =~= old(rng).drawn() + asked_by_all(bodies, dt as int, longer));
                used = longer;
            }
            i = i + 1;
        }
        proof {
            assert(old(self)@.take(n as int) =~= old(self)@);
            assert(all_step_with(old(self)@, dt as int, used, self@));
        }
    }

    /// The commands that draw every particle, in order, on a surface of the
    /// given size. Nothing clears the surface first.
    pub fn render(&self, width: i64, height: i64) -> (commands: Vec<Command>)
        ensures
            commands@ == picture(self@, width as int, height as int),
    {
        let n: usize = self.particles.len();
        let mut commands: Vec<Command> = Vec::new();
        let mut i: usize = 0;
        while i < n
            invariant
                i <= n,
                self.particles@.len() == n,
                commands@.len() == i,
                forall|j: int|
                    0 <= j < i ==> #[trigger] commands@[j] == picture(
                        self@,
                        width as int,
                        height as int,
                    )[j],
            decreases n - i,
        {
            let circle = self.particles[i].describe(width, height);
            commands.push(Command::Arc { color: red(), circle, start: 0, end: FULL_TURN });
            i = i + 1;
        }
        commands
    }

    /// Drawing twice without a step between gives the same commands twice.
    pub proof fn lemma_render_repeats(
        self,
        width: int,
        height: int,
        first: Seq<Command>,
        second: Seq<Command>,
    )
        requires
            first == picture(self@, width, height),
            second == picture(self@, width, height),
        ensures
            first == second,
    {
    }
}

} // verus!
