//! The loop's decisions: what each tick of the event source leads to.

use crate::particle::Body;
use crate::random::RandomSource;
use crate::surface::{background, Command};
use crate::system::{all_step, picture, updated, ParticleSystem};
use vstd::prelude::*;

verus! {

/// One event of the event source.
#[derive(Clone, Copy, Debug, PartialEq, Eq)]
pub enum Tick {
    /// The surface is to be drawn. Its size is in millionths of a pixel.
    Render { width: i64, height: i64 },
    /// Time has passed since the last update: `dt` millionths of a second.
    Update { dt: i64 },
}

/// The commands of one frame: the surface is cleared to the background
/// colour, then the particles are drawn in their order.
pub open spec fn frame(bodies: Seq<Body>, width: int, height: int) -> Seq<Command> {
    seq![Command::Clear { color: background() }] + picture(bodies, width, height)
}

/// The animation: a particle system and the rule by which ticks drive it.
pub struct App {
    system: ParticleSystem,
}

impl View for App {
    type V = Seq<Body>;

    closed spec fn view(&self) -> Seq<Body> {
        self.system@
    }
}

impl App {
    /// The numbers of every particle of the animation fit an `i64`.
    pub proof fn lemma_bounded(self)
        ensures
            forall|i: int| 0 <= i < self@.len() ==> (#[trigger] self@[i]).bounded(),
    {
        self.system.lemma_bounded();
    }

    /// The animation of the given particles.
    pub fn new(system: ParticleSystem) -> (app: App)
        ensures
            app@ == system@,
    {
        App { system }
    }

    /// The particles as they are now.
    pub fn system(&self) -> (system: &ParticleSystem)
        ensures
            system@ == self@,
    {
        &self.system
    }

    /// The commands of one frame on a surface of the given size.
    pub fn render(&self, width: i64, height: i64) -> (commands: Vec<Command>)
        ensures
            commands@ == frame(self@, width as int, height as int),
    {
        let mut commands: Vec<Command> = Vec::new();
        commands.push(Command::Clear { color: background() });
        let mut arcs = self.system.render(width, height);
        commands.append(&mut arcs);
        commands
    }

    /// One step over `dt` of every particle, with draws from `rng`.
    pub fn update<R: RandomSource>(&mut self, dt: i64, rng: &mut R)
        ensures
            updated(old(self)@, dt as int, final(self)@, old(rng).drawn(), final(rng).drawn()),
            all_step(old(self)@, dt as int, final(self)@),
    {
        self.system.update(dt, rng);
    }

    /// What a tick leads to. A render tick changes nothing, asks nothing of
    /// the source and gives the commands of a frame. An update tick steps
    /// every particle and gives no command.
    pub fn handle<R: RandomSource>(&mut self, tick: Tick, rng: &mut R) -> (commands: Vec<Command>)
        ensures
            match tick {
                Tick::Render { width, height } => {
                    &&& final(self)@ == old(self)@
                    &&& final(rng).drawn() == old(rng).drawn()
                    &&& commands@ == frame(old(self)@, width as int, height as int)
                },
                Tick::Update { dt } => {
                    &&& updated(
                        old(self)@,
                        dt as int,
                        final(self)@,
                        old(rng).drawn(),
                        final(rng).drawn(),
                    )
                    &&& all_step(old(self)@, dt as int, final(self)@)
                    &&& commands@.len() == 0
                },
            },
    {
        match tick {
            Tick::Render { width, height } => self.render(width, height),
            Tick::Update { dt } => {
                self.update(dt, rng);
                Vec::new()
            },
        }
    }
}

} // verus!
