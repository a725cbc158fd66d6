use vstd::prelude::*;

use crate::chance::{draw_between, random_u64};
use crate::colour::{in_palette, Colour};
use crate::fireworks::{draw_rocket, rocket_mark, ticked, Cue, Firework, Mark, BURST_RADIUS};
use crate::shell::{
    at_apex, burst_of, random_burst, rising, Shell, PARTICLE_COUNT, PARTICLE_LIFETIME,
};
use crate::sim::Particle;
use crate::standard::pick_colour;

verus! {

/// Ticks in one blink cycle of a sparkling particle.
pub const SPARK_PERIOD: u32 = 3;

/// Shortest life of a sparkling particle, in ticks.
pub const SPARK_LIFE_MIN: u32 = 70;

/// The visibility schedule of one sparkling particle: it is gone after
/// `life` ticks, and before that it blinks out once every `SPARK_PERIOD`
/// ticks, shifted by `phase`.
#[derive(Clone, Copy, Debug, PartialEq, Eq, Structural)]
pub struct Spark {
    pub life: u32,
    pub phase: u32,
}

/// Whether a particle with schedule `s` shows after `elapsed` ticks.
pub open spec fn lit(s: Spark, elapsed: int) -> bool {
    elapsed < s.life && (elapsed + s.phase) % (SPARK_PERIOD as int) != 0
}

/// The two particles of every sparkling burst that last its whole life and
/// blink out of step with each other.
pub open spec fn steady_spark(i: int) -> Spark {
    Spark { life: PARTICLE_LIFETIME, phase: (i + 1) as u32 }
}

/// A well-formed burst schedule: one entry per particle, the first two
/// steady.
pub open spec fn sparks_ok(sparks: Seq<Spark>) -> bool {
    &&& sparks.len() == PARTICLE_COUNT
    &&& sparks[0] == steady_spark(0)
    &&& sparks[1] == steady_spark(1)
    &&& forall|i: int|
        0 <= i < sparks.len() ==> (#[trigger] sparks[i]).life <= PARTICLE_LIFETIME
            && sparks[i].phase < SPARK_PERIOD
}

/// The marks of the first `n` particles that show after `elapsed` ticks.
pub open spec fn lit_marks(
    ps: Seq<Particle>,
    sparks: Seq<Spark>,
    colour: Colour,
    elapsed: int,
    n: nat,
) -> Seq<Mark>
    decreases n,
{
    if n == 0 {
        seq![]
    } else {
        let before = lit_marks(ps, sparks, colour, elapsed, (n - 1) as nat);
        if lit(sparks[n - 1], elapsed) {
            before.push(
                Mark {
                    pos: ps[n - 1].pos,
                    colour,
                    alpha_num: 1,
                    alpha_den: 1,
                    radius_tenths: BURST_RADIUS,
                },
            )
        } else {
            before
        }
    }
}

proof fn lemma_lit_marks_nonempty(
    ps: Seq<Particle>,
    sparks: Seq<Spark>,
    colour: Colour,
    elapsed: int,
    n: nat,
    i: int,
)
    requires
        0 <= i < n,
        lit(sparks[i], elapsed),
    ensures
        lit_marks(ps, sparks, colour, elapsed, n).len() > 0,
    decreases n,
{
    if i < n - 1 {
        lemma_lit_marks_nonempty(ps, sparks, colour, elapsed, (n - 1) as nat, i);
    }
}

/// Schedules for one burst, drawn at random but for the two steady ones.
pub fn random_sparks() -> (sparks: Vec<Spark>)
    ensures
        sparks_ok(sparks@),
{
    let mut sparks: Vec<Spark> = Vec::new();
    sparks.push(Spark { life: PARTICLE_LIFETIME, phase: 1 });
    sparks.push(Spark { life: PARTICLE_LIFETIME, phase: 2 });
    let mut n: usize = 2;
    while n < PARTICLE_COUNT
        invariant
            2 <= n <= PARTICLE_COUNT,
            sparks@.len() == n,
            sparks@[0] == steady_spark(0),
            sparks@[1] == steady_spark(1),
            forall|i: int|
                0 <= i < sparks@.len() ==> (#[trigger] sparks@[i]).life <= PARTICLE_LIFETIME
                    && sparks@[i].phase < SPARK_PERIOD,
        decreases PARTICLE_COUNT - n,
    {
        let life = draw_between(random_u64(), SPARK_LIFE_MIN as u64, PARTICLE_LIFETIME as u64);
        let phase = random_u64() % SPARK_PERIOD as u64;
        sparks.push(Spark { life: life as u32, phase: phase as u32 });
        n = n + 1;
    }
    sparks
}

/// A firework whose burst keeps one colour and whose particles blink and
/// die out each on their own schedule instead of fading together.
pub struct SparkleFirework {
    pub name: String,
    pub shell: Shell,
    pub colour: Colour,
    pub sparks: Vec<Spark>,
}

impl SparkleFirework {
    pub open spec fn wf(&self) -> bool {
        &&& self.shell.wf()
        &&& in_palette(self.colour)
        &&& if self.shell.exploded {
            sparks_ok(self.sparks@)
        } else {
            self.sparks@.len() == 0
        }
    }

    /// What `draw` shows for this state.
    pub open spec fn marks(&self) -> Seq<Mark> {
        if self.shell.exploded {
            lit_marks(
                self.shell.particles@,
                self.sparks@,
                self.colour,
                self.shell.elapsed(),
                PARTICLE_COUNT as nat,
            )
        } else {
            seq![rocket_mark(self.shell.rocket)]
        }
    }

    /// A new firework at a random place on the bottom of a `width` ×
    /// `height` viewport, with a random colour.
    pub fn new(name: String, width: u32, height: u32) -> (f: SparkleFirework)
        ensures
            f.wf(),
            f.name == name,
            f.shell.launched(width, height),
    {
        SparkleFirework {
            name,
            shell: Shell::new(width, height),
            colour: pick_colour(random_u64()),
            sparks: Vec::new(),
        }
    }

    pub fn rocket(&self) -> (r: &Particle)
        ensures
            *r == self.shell.rocket,
    {
        &self.shell.rocket
    }

    pub fn exploded(&self) -> (r: bool)
        ensures
            r == self.shell.exploded,
    {
        self.shell.exploded
    }

    pub fn lifetime(&self) -> (r: u32)
        ensures
            r == self.shell.lifetime,
    {
        self.shell.lifetime
    }

    pub fn particles(&self) -> (r: &Vec<Particle>)
        ensures
            r@ == self.shell.particles@,
    {
        &self.shell.particles
    }

    /// Clears the burst and its schedules, and picks a fresh colour.
    pub fn reset_explosion(&mut self)
        requires
            rising(old(self).shell.rocket),
        ensures
            final(self).wf(),
            final(self).name == old(self).name,
            final(self).shell.rocket == old(self).shell.rocket,
            !final(self).shell.exploded,
            final(self).shell.particles@.len() == 0,
            final(self).shell.lifetime == PARTICLE_LIFETIME,
    {
        self.shell.clear_burst();
        self.sparks.clear();
        self.colour = pick_colour(random_u64());
    }

    /// Relaunches from the bottom of the viewport with a fresh colour.
    pub fn reset(&mut self, width: u32, height: u32)
        ensures
            final(self).wf(),
            final(self).name == old(self).name,
            final(self).shell.launched(width, height),
    {
        self.shell.launch(width, height);
        self.reset_explosion();
    }

    /// Explodes the rocket into a burst of random offsets, each particle
    /// with its own schedule.
    pub fn explode(&mut self)
        requires
            in_palette(old(self).colour),
            at_apex(old(self).shell.rocket),
            old(self).shell.lifetime == PARTICLE_LIFETIME,
        ensures
            final(self).wf(),
            final(self).name == old(self).name,
            final(self).colour == old(self).colour,
            final(self).shell.exploded,
            final(self).shell.rocket == old(self).shell.rocket,
            final(self).shell.lifetime == PARTICLE_LIFETIME,
            burst_of(final(self).shell.particles@, old(self).shell.rocket),
    {
        let offsets = random_burst();
        self.shell.burst_with(&offsets);
        self.sparks = random_sparks();
    }

    /// Advances the firework by one tick.
    pub fn step(&mut self, width: u32, height: u32) -> (cue: Option<Cue>)
        requires
            old(self).wf(),
        ensures
            final(self).wf(),
            final(self).name == old(self).name,
            ticked(old(self).shell, final(self).shell, width, height, cue),
    {
        if !self.shell.exploded {
            if self.shell.ascend() {
                self.explode();
                Some(Cue::Explosion)
            } else {
                None
            }
        } else if self.shell.age() {
            self.reset(width, height);
            Some(Cue::Launch)
        } else {
            None
        }
    }

    /// Draws the rising rocket, or those burst particles that show now, at
    /// full opacity.
    pub fn draw(&self) -> (marks: Vec<Mark>)
        requires
            self.wf(),
        ensures
            marks@ == self.marks(),
    {
        if !self.shell.exploded {
            let mut marks = Vec::new();
            marks.push(draw_rocket(&self.shell.rocket));
            assert(marks@ =~= seq![rocket_mark(self.shell.rocket)]);
            return marks;
        }
        let elapsed: u32 = PARTICLE_LIFETIME - self.shell.lifetime;
        let mut marks: Vec<Mark> = Vec::new();
        let mut n: usize = 0;
        while n < PARTICLE_COUNT
            invariant
                self.wf(),
                self.shell.exploded,
                elapsed == self.shell.elapsed(),
                n <= PARTICLE_COUNT,
                marks@ == lit_marks(
                    self.shell.particles@,
                    self.sparks@,
                    self.colour,
                    elapsed as int,
                    n as nat,
                ),
            decreases PARTICLE_COUNT - n,
        {
            let s = self.sparks[n];
            if elapsed < s.life && (elapsed + s.phase) % SPARK_PERIOD != 0 {
                marks.push(
                    Mark {
                        pos: self.shell.particles[n].pos(),
                        colour: self.colour,
                        alpha_num: 1,
                        alpha_den: 1,
                        radius_tenths: BURST_RADIUS,
                    },
                );
            }
            n = n + 1;
        }
        marks
    }
}

/// A sparkling burst never goes fully dark while it has time left: at least
/// one particle shows on every tick of it.
pub proof fn lemma_sparkle_never_dark(f: SparkleFirework)
    requires
        f.wf(),
        f.shell.exploded,
    ensures
        f.marks().len() > 0,
{
    let e = f.shell.elapsed();
    let sparks = f.sparks@;
    assert(0 <= e < PARTICLE_LIFETIME);
    if (e + 1) % 3 != 0 {
        assert(lit(sparks[0], e));
        lemma_lit_marks_nonempty(f.shell.particles@, sparks, f.colour, e, PARTICLE_COUNT as nat, 0);
    } else {
        assert(lit(sparks[1], e));
        lemma_lit_marks_nonempty(f.shell.particles@, sparks, f.colour, e, PARTICLE_COUNT as nat, 1);
    }
}

impl Firework for SparkleFirework {
    open spec fn inv(&self) -> bool {
        self.wf()
    }

    open spec fn lifecycle(&self) -> Shell {
        self.shell
    }

    open spec fn shown(&self) -> Seq<Mark> {
        self.marks()
    }

    fn reset(&mut self, width: u32, height: u32) {
        SparkleFirework::reset(self, width, height)
    }

    fn step(&mut self, width: u32, height: u32) -> (cue: Option<Cue>) {
        SparkleFirework::step(self, width, height)
    }

    fn draw(&self) -> (marks: Vec<Mark>) {
        SparkleFirework::draw(self)
    }
}

} // verus!
