use vstd::prelude::*;

use crate::colour::Colour;
use crate::fireworks::{draw_faded, draw_rocket, faded_marks, rocket_mark, ticked, Cue, Firework, Mark};
use crate::shell::{at_apex, burst_of, random_burst, rising, Shell, PARTICLE_LIFETIME};
use crate::sim::Particle;

verus! {

/// Hue of a colour-shifting burst at its explosion, in degrees.
pub const HUE_FIRST: u32 = 0;

/// Hue of a colour-shifting burst at the end of its life, in degrees.
pub const HUE_LAST: u32 = 300;

/// Hue after `elapsed` ticks of a burst: a linear sweep from `HUE_FIRST`
/// to `HUE_LAST`, rounded down.
pub open spec fn hue_at(elapsed: int) -> int {
    HUE_FIRST + (HUE_LAST - HUE_FIRST) * elapsed / (PARTICLE_LIFETIME as int)
}

/// The hue after `elapsed` ticks of a burst.
pub fn shift_hue(elapsed: u32) -> (h: u32)
    requires
        elapsed <= PARTICLE_LIFETIME,
    ensures
        h == hue_at(elapsed as int),
        h <= HUE_LAST,
{
    assert((HUE_LAST - HUE_FIRST) * elapsed <= 300 * 140) by (nonlinear_arith)
        requires
            elapsed <= 140,
    ;
    HUE_FIRST + (HUE_LAST - HUE_FIRST) * elapsed / PARTICLE_LIFETIME
}

/// The hue of a colour-shifting burst starts at `HUE_FIRST`, ends at
/// `HUE_LAST`, and never decreases in between.
pub proof fn lemma_hue_sweep(a: int, b: int)
    requires
        0 <= a <= b <= PARTICLE_LIFETIME,
    ensures
        hue_at(0) == HUE_FIRST,
        hue_at(PARTICLE_LIFETIME as int) == HUE_LAST,
        hue_at(a) <= hue_at(b),
{
    assert(300 * a <= 300 * b) by (nonlinear_arith)
        requires
            a <= b,
    ;
    vstd::arithmetic::div_mod::lemma_div_is_ordered(300 * a, 300 * b, 140);
}

/// A firework whose burst sweeps through the hues over its lifetime and
/// fades out uniformly.
pub struct ColourShiftFirework {
    pub name: String,
    pub shell: Shell,
}

impl ColourShiftFirework {
    pub open spec fn wf(&self) -> bool {
        self.shell.wf()
    }

    /// The colour that the burst has in this state.
    pub open spec fn colour_spec(&self) -> Colour {
        Colour::Hue { degrees: hue_at(self.shell.elapsed()) as u32 }
    }

    /// What `draw` shows for this state.
    pub open spec fn marks(&self) -> Seq<Mark> {
        if self.shell.exploded {
            faded_marks(self.shell.particles@, self.colour_spec(), self.shell.lifetime)
        } else {
            seq![rocket_mark(self.shell.rocket)]
        }
    }

    /// A new firework at a random place on the bottom of a `width` ×
    /// `height` viewport.
    pub fn new(name: String, width: u32, height: u32) -> (f: ColourShiftFirework)
        ensures
            f.wf(),
            f.name == name,
            f.shell.launched(width, height),
    {
        ColourShiftFirework { name, shell: Shell::new(width, height) }
    }

    pub fn rocket(&self) -> (r: &Particle)
        ensures
            *r == self.shell.rocket,
    {
        &self.shell.rocket
    }

    pub fn exploded(&self) -> (r: bool)
        ensures
            r == self.shell.exploded,
    {
        self.shell.exploded
    }

    pub fn lifetime(&self) -> (r: u32)
        ensures
            r == self.shell.lifetime,
    {
        self.shell.lifetime
    }

    pub fn particles(&self) -> (r: &Vec<Particle>)
        ensures
            r@ == self.shell.particles@,
    {
        &self.shell.particles
    }

    /// The burst's current colour.
    pub fn colour(&self) -> (c: Colour)
        requires
            self.wf(),
        ensures
            c == self.colour_spec(),
    {
        Colour::Hue { degrees: shift_hue(PARTICLE_LIFETIME - self.shell.lifetime) }
    }

    /// Clears the burst; the sweep starts over at the next explosion.
    pub fn reset_explosion(&mut self)
        requires
            rising(old(self).shell.rocket),
        ensures
            final(self).wf(),
            final(self).name == old(self).name,
            final(self).shell.rocket == old(self).shell.rocket,
            !final(self).shell.exploded,
            final(self).shell.particles@.len() == 0,
            final(self).shell.lifetime == PARTICLE_LIFETIME,
    {
        self.shell.clear_burst();
    }

    /// Relaunches from the bottom of the viewport.
    pub fn reset(&mut self, width: u32, height: u32)
        ensures
            final(self).wf(),
            final(self).name == old(self).name,
            final(self).shell.launched(width, height),
    {
        self.shell.launch(width, height);
        self.reset_explosion();
    }

    /// Explodes the rocket into a burst of random offsets.
    pub fn explode(&mut self)
        requires
            at_apex(old(self).shell.rocket),
            old(self).shell.lifetime == PARTICLE_LIFETIME,
        ensures
            final(self).wf(),
            final(self).name == old(self).name,
            final(self).shell.exploded,
            final(self).shell.rocket == old(self).shell.rocket,
            final(self).shell.lifetime == PARTICLE_LIFETIME,
            burst_of(final(self).shell.particles@, old(self).shell.rocket),
    {
        let offsets = random_burst();
        self.shell.burst_with(&offsets);
    }

    /// Advances the firework by one tick.
    pub fn step(&mut self, width: u32, height: u32) -> (cue: Option<Cue>)
        requires
            old(self).wf(),
        ensures
            final(self).wf(),
            final(self).name == old(self).name,
            ticked(old(self).shell, final(self).shell, width, height, cue),
    {
        if !self.shell.exploded {
            if self.shell.ascend() {
                self.explode();
                Some(Cue::Explosion)
            } else {
                None
            }
        } else if self.shell.age() {
            self.reset(width, height);
            Some(Cue::Launch)
        } else {
            None
        }
    }

    /// Draws the rising rocket, or the burst in its current hue at an
    /// opacity of the remaining lifetime over the whole.
    pub fn draw(&self) -> (marks: Vec<Mark>)
        requires
            self.wf(),
        ensures
            marks@ == self.marks(),
    {
        if !self.shell.exploded {
            let mut marks = Vec::new();
            marks.push(draw_rocket(&self.shell.rocket));
            assert(marks@ =~= seq![rocket_mark(self.shell.rocket)]);
            marks
        } else {
            draw_faded(&self.shell.particles, self.colour(), self.shell.lifetime)
        }
    }
}

impl Firework for ColourShiftFirework {
    open spec fn inv(&self) -> bool {
        self.wf()
    }

    open spec fn lifecycle(&self) -> Shell {
        self.shell
    }

    open spec fn shown(&self) -> Seq<Mark> {
        self.marks()
    }

    fn reset(&mut self, width: u32, height: u32) {
        ColourShiftFirework::reset(self, width, height)
    }

    fn step(&mut self, width: u32, height: u32) -> (cue: Option<Cue>) {
        ColourShiftFirework::step(self, width, height)
    }

    fn draw(&self) -> (marks: Vec<Mark>) {
        ColourShiftFirework::draw(self)
    }
}

} // verus!
