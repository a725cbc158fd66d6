use vstd::prelude::*;

use crate::chance::random_u64;
use crate::colour::{in_palette, palette, palette_spec, Colour, PALETTE_SIZE};
use crate::fireworks::{
    draw_faded, draw_rocket, faded_marks, rocket_mark, ticked, Cue, Firework, Mark,
};
use crate::shell::{at_apex, random_burst, rising, Shell, PARTICLE_LIFETIME};
use crate::sim::Particle;

verus! {

/// A plain firework: one colour from the palette per burst, fading out
/// uniformly.
pub struct StandardFirework {
    pub name: String,
    pub shell: Shell,
    pub colour: Colour,
}

/// The palette colour that `draw` selects.
pub fn pick_colour(draw: u64) -> (c: Colour)
    ensures
        c == palette_spec((draw % (PALETTE_SIZE as u64)) as int),
        in_palette(c),
{
    palette((draw % PALETTE_SIZE as u64) as usize)
}

impl StandardFirework {
    pub open spec fn wf(&self) -> bool {
        self.shell.wf() && in_palette(self.colour)
    }

    /// What `draw` shows for this state.
    pub open spec fn marks(&self) -> Seq<Mark> {
        if self.shell.exploded {
            faded_marks(self.shell.particles@, self.colour, self.shell.lifetime)
        } else {
            seq![rocket_mark(self.shell.rocket)]
        }
    }

    /// A new firework at a random place on the bottom of a `width` ×
    /// `height` viewport, with a random colour.
    pub fn new(name: String, width: u32, height: u32) -> (f: StandardFirework)
        ensures
            f.wf(),
            f.name == name,
            f.shell.launched(width, height),
    {
        StandardFirework { name, shell: Shell::new(width, height), colour: pick_colour(random_u64()) }
    }

    pub fn rocket(&self) -> (r: &Particle)
        ensures
            *r == self.shell.rocket,
    {
        &self.shell.rocket
    }

    pub fn exploded(&self) -> (r: bool)
        ensures
            r == self.shell.exploded,
    {
        self.shell.exploded
    }

    pub fn lifetime(&self) -> (r: u32)
        ensures
            r == self.shell.lifetime,
    {
        self.shell.lifetime
    }

    pub fn particles(&self) -> (r: &Vec<Particle>)
        ensures
            r@ == self.shell.particles@,
    {
        &self.shell.particles
    }

    pub fn colour(&self) -> (r: Colour)
        ensures
            r == self.colour,
    {
        self.colour
    }

    /// Clears the burst and picks a fresh colour.
    pub fn reset_explosion(&mut self)
        requires
            rising(old(self).shell.rocket),
        ensures
            final(self).wf(),
            final(self).name == old(self).name,
            final(self).shell.rocket == old(self).shell.rocket,
            !final(self).shell.exploded,
            final(self).shell.particles@.len() == 0,
            final(self).shell.lifetime == PARTICLE_LIFETIME,
    {
        self.shell.clear_burst();
        self.colour = pick_colour(random_u64());
    }

    /// Relaunches from the bottom of the viewport with a fresh colour.
    pub fn reset(&mut self, width: u32, height: u32)
        ensures
            final(self).wf(),
            final(self).name == old(self).name,
            final(self).shell.launched(width, height),
    {
        self.shell.launch(width, height);
        self.reset_explosion();
    }

    /// Explodes the rocket into a burst of random offsets.
    pub fn explode(&mut self)
        requires
            in_palette(old(self).colour),
            at_apex(old(self).shell.rocket),
            old(self).shell.lifetime == PARTICLE_LIFETIME,
        ensures
            final(self).wf(),
            final(self).name == old(self).name,
            final(self).colour == old(self).colour,
            final(self).shell.exploded,
            final(self).shell.rocket == old(self).shell.rocket,
            final(self).shell.lifetime == PARTICLE_LIFETIME,
            crate::shell::burst_of(final(self).shell.particles@, old(self).shell.rocket),
    {
        let offsets = random_burst();
        self.shell.burst_with(&offsets);
    }

    /// Advances the firework by one tick.
    pub fn step(&mut self, width: u32, height: u32) -> (cue: Option<Cue>)
        requires
            old(self).wf(),
        ensures
            final(self).wf(),
            final(self).name == old(self).name,
            ticked(old(self).shell, final(self).shell, width, height, cue),
            final(self).shell.exploded && old(self).shell.exploded ==> final(self).colour == old(self).colour,
    {
        if !self.shell.exploded {
            if self.shell.ascend() {
                self.explode();
                Some(Cue::Explosion)
            } else {
                None
            }
        } else if self.shell.age() {
            self.reset(width, height);
            Some(Cue::Launch)
        } else {
            None
        }
    }

    /// Draws the rising rocket, or the burst at an opacity of the remaining
    /// lifetime over the whole.
    pub fn draw(&self) -> (marks: Vec<Mark>)
        ensures
            marks@ == self.marks(),
    {
        if !self.shell.exploded {
            let mut marks = Vec::new();
            marks.push(draw_rocket(&self.shell.rocket));
            assert(marks@ =~= seq![rocket_mark(self.shell.rocket)]);
            marks
        } else {
            draw_faded(&self.shell.particles, self.colour, self.shell.lifetime)
        }
    }
}

impl Firework for StandardFirework {
    open spec fn inv(&self) -> bool {
        self.wf()
    }

    open spec fn lifecycle(&self) -> Shell {
        self.shell
    }

    open spec fn shown(&self) -> Seq<Mark> {
        self.marks()
    }

    fn reset(&mut self, width: u32, height: u32) {
        StandardFirework::reset(self, width, height)
    }

    fn step(&mut self, width: u32, height: u32) -> (cue: Option<Cue>) {
        StandardFirework::step(self, width, height)
    }

    fn draw(&self) -> (marks: Vec<Mark>) {
        StandardFirework::draw(self)
    }
}

} // verus!
