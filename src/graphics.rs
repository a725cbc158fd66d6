use vstd::prelude::*;

use crate::chance::{draw_between, random_u64};
use crate::colour::Colour;
use crate::colour_shift::ColourShiftFirework;
use crate::fireworks::{ticked, Cue, Mark};
use crate::shell::{Shell, SUBPIXELS};
use crate::sim::{Particle, TwoVec};
use crate::sparkle::SparkleFirework;
use crate::standard::StandardFirework;

verus! {

/// Number of background stars.
pub const STAR_COUNT: usize = 20;

/// Radius of a star, in tenths of a pixel.
pub const STAR_RADIUS: u32 = 20;

/// Number of firework variants.
pub const VARIANT_COUNT: usize = 3;

/// Spawning cycles through the first `SPAWN_CYCLE` variants in order
/// (standard, then colour-shifting); a sparkling firework is only had by
/// building it.
pub const SPAWN_CYCLE: usize = 2;

/// One firework of the scene, of any variant.
pub enum Spawned {
    Standard(StandardFirework),
    ColourShift(ColourShiftFirework),
    Sparkle(SparkleFirework),
}

impl Spawned {
    pub open spec fn wf(&self) -> bool {
        match self {
            Spawned::Standard(f) => f.wf(),
            Spawned::ColourShift(f) => f.wf(),
            Spawned::Sparkle(f) => f.wf(),
        }
    }

    pub open spec fn shell(&self) -> Shell {
        match self {
            Spawned::Standard(f) => f.shell,
            Spawned::ColourShift(f) => f.shell,
            Spawned::Sparkle(f) => f.shell,
        }
    }

    pub open spec fn name(&self) -> String {
        match self {
            Spawned::Standard(f) => f.name,
            Spawned::ColourShift(f) => f.name,
            Spawned::Sparkle(f) => f.name,
        }
    }

    pub open spec fn marks(&self) -> Seq<Mark> {
        match self {
            Spawned::Standard(f) => f.marks(),
            Spawned::ColourShift(f) => f.marks(),
            Spawned::Sparkle(f) => f.marks(),
        }
    }

    /// Which variant this is: its place in the spawning cycle.
    pub open spec fn variant(&self) -> nat {
        match self {
            Spawned::Standard(_) => 0,
            Spawned::ColourShift(_) => 1,
            Spawned::Sparkle(_) => 2,
        }
    }

    /// A new firework of the variant at place `variant` of the spawning
    /// cycle.
    pub fn new(variant: usize, name: String, width: u32, height: u32) -> (f: Spawned)
        requires
            variant < VARIANT_COUNT,
        ensures
            f.wf(),
            f.variant() == variant,
            f.name() == name,
            f.shell().launched(width, height),
    {
        if variant == 0 {
            Spawned::Standard(StandardFirework::new(name, width, height))
        } else if variant == 1 {
            Spawned::ColourShift(ColourShiftFirework::new(name, width, height))
        } else {
            Spawned::Sparkle(SparkleFirework::new(name, width, height))
        }
    }

    /// Advances the firework by one tick.
    pub fn step(&mut self, width: u32, height: u32) -> (cue: Option<Cue>)
        requires
            old(self).wf(),
        ensures
            final(self).wf(),
            final(self).variant() == old(self).variant(),
            final(self).name() == old(self).name(),
            ticked(old(self).shell(), final(self).shell(), width, height, cue),
    {
        match self {
            Spawned::Standard(f) => f.step(width, height),
            Spawned::ColourShift(f) => f.step(width, height),
            Spawned::Sparkle(f) => f.step(width, height),
        }
    }

    /// Draws the firework.
    pub fn draw(&self) -> (marks: Vec<Mark>)
        requires
            self.wf(),
        ensures
            marks@ == self.marks(),
    {
        match self {
            Spawned::Standard(f) => f.draw(),
            Spawned::ColourShift(f) => f.draw(),
            Spawned::Sparkle(f) => f.draw(),
        }
    }
}

/// A viewport dimension as used for scaling: zero counts as one.
pub open spec fn at_least_one(d: u32) -> int {
    if d == 0 {
        1
    } else {
        d as int
    }
}

/// A star: a still point inside a `width` × `height` viewport.
pub open spec fn star_ok(s: Particle, width: u32, height: u32) -> bool {
    &&& s.vel == TwoVec { x: 0, y: 0 }
    &&& 0 <= s.pos.x <= width * SUBPIXELS
    &&& 0 <= s.pos.y <= height * SUBPIXELS
}

/// The mark of a star.
pub open spec fn star_mark(s: Particle) -> Mark {
    Mark {
        pos: s.pos,
        colour: Colour::Rgb { r: 255, g: 255, b: 0 },
        alpha_num: 1,
        alpha_den: 1,
        radius_tenths: STAR_RADIUS,
    }
}

/// The marks of the first `n` fireworks, in order.
pub open spec fn fireworks_marks(fs: Seq<Spawned>, n: nat) -> Seq<Mark>
    decreases n,
{
    if n == 0 {
        seq![]
    } else {
        fireworks_marks(fs, (n - 1) as nat) + fs[n - 1].marks()
    }
}

/// The scene: a fixed field of stars and the fireworks spawned so far, in a
/// viewport of `width` × `height` pixels.
pub struct Graphics {
    pub width: u32,
    pub height: u32,
    pub stars: Vec<Particle>,
    pub fireworks: Vec<Spawned>,
}

impl Graphics {
    pub open spec fn wf(&self) -> bool {
        &&& forall|i: int|
            0 <= i < self.stars@.len() ==> star_ok(#[trigger] self.stars@[i], self.width, self.height)
        &&& forall|i: int| 0 <= i < self.fireworks@.len() ==> (#[trigger] self.fireworks@[i]).wf()
    }

    /// Everything `draw` shows: the stars, then the fireworks in the order
    /// they were spawned.
    pub open spec fn marks(&self) -> Seq<Mark> {
        self.stars@.map_values(|s: Particle| star_mark(s)) + fireworks_marks(
            self.fireworks@,
            self.fireworks@.len(),
        )
    }

    /// An empty scene on a `width` × `height` viewport.
    pub fn new(width: u32, height: u32) -> (g: Graphics)
        ensures
            g.wf(),
            g.width == width,
            g.height == height,
            g.stars@.len() == 0,
            g.fireworks@.len() == 0,
    {
        Graphics { width, height, stars: Vec::new(), fireworks: Vec::new() }
    }

    /// Moves every star in proportion to the change of the viewport; the
    /// fireworks keep their places.
    pub fn resize(&mut self, width: u32, height: u32)
        requires
            old(self).wf(),
        ensures
            final(self).wf(),
            final(self).width == width,
            final(self).height == height,
            final(self).fireworks@ == old(self).fireworks@,
            final(self).stars@.len() == old(self).stars@.len(),
            forall|i: int|
                0 <= i < old(self).stars@.len() ==> (#[trigger] final(self).stars@[i]).pos.x
                    == old(self).stars@[i].pos.x * width / at_least_one(old(self).width)
                    && final(self).stars@[i].pos.y == old(self).stars@[i].pos.y * height
                    / at_least_one(old(self).height) && final(self).stars@[i].vel
                    == old(self).stars@[i].vel,
    {
        let old_width: u128 = if self.width == 0 {
            1
        } else {
            self.width as u128
        };
        let old_height: u128 = if self.height == 0 {
            1
        } else {
            self.height as u128
        };
        let mut n: usize = 0;
        while n < self.stars.len()
            invariant
                n <= self.stars@.len() == old(self).stars@.len(),
                self.width == old(self).width,
                self.height == old(self).height,
                old_width == at_least_one(self.width),
                old_height == at_least_one(self.height),
                self.fireworks@ == old(self).fireworks@,
                forall|i: int|
                    0 <= i < old(self).stars@.len() ==> star_ok(
                        #[trigger] old(self).stars@[i],
                        self.width,
                        self.height,
                    ),
                forall|i: int|
                    n <= i < self.stars@.len() ==> #[trigger] self.stars@[i]
                        == old(self).stars@[i],
                forall|i: int|
                    0 <= i < n ==> (#[trigger] self.stars@[i]).pos.x == old(self).stars@[i].pos.x
                        * width / at_least_one(old(self).width) && self.stars@[i].pos.y
                        == old(self).stars@[i].pos.y * height / at_least_one(old(self).height)
                        && self.stars@[i].vel == old(self).stars@[i].vel && star_ok(
                        self.stars@[i],
                        width,
                        height,
                    ),
            decreases self.stars@.len() - n,
        {
            let mut star = self.stars[n];
            assert(star_ok(old(self).stars@[n as int], self.width, self.height));
            let x = star.pos().x() as u128;
            let y = star.pos().y() as u128;
            proof {
                lemma_scale_within(x as int, old_width as int, width as int);
                lemma_scale_within(y as int, old_height as int, height as int);
            }
            let new_x = x * width as u128 / old_width;
            let new_y = y * height as u128 / old_height;
            star.set_pos(TwoVec::new(new_x as i64, new_y as i64));
            self.stars.set(n, star);
            n = n + 1;
        }
        self.width = width;
        self.height = height;
    }

    /// Creates the star field.
    pub fn init(&mut self)
        requires
            old(self).wf(),
        ensures
            final(self).wf(),
            final(self).width == old(self).width,
            final(self).height == old(self).height,
            final(self).fireworks@ == old(self).fireworks@,
            final(self).stars@.len() == old(self).stars@.len() + STAR_COUNT,
            final(self).stars@.subrange(0, old(self).stars@.len() as int) == old(self).stars@,
    {
        self.create_stars(STAR_COUNT);
    }

    /// Adds `count` stars at random places in the viewport.
    pub fn create_stars(&mut self, count: usize)
        requires
            old(self).wf(),
        ensures
            final(self).wf(),
            final(self).width == old(self).width,
            final(self).height == old(self).height,
            final(self).fireworks@ == old(self).fireworks@,
            final(self).stars@.len() == old(self).stars@.len() + count,
            final(self).stars@.subrange(0, old(self).stars@.len() as int) == old(self).stars@,
    {
        let mut n: usize = 0;
        while n < count
            invariant
                n <= count,
                self.wf(),
                self.width == old(self).width,
                self.height == old(self).height,
                self.fireworks@ == old(self).fireworks@,
                self.stars@.len() == old(self).stars@.len() + n,
                self.stars@.subrange(0, old(self).stars@.len() as int) == old(self).stars@,
            decreases count - n,
        {
            let x = draw_between(random_u64(), 0, self.width as u64 * SUBPIXELS);
            let y = draw_between(random_u64(), 0, self.height as u64 * SUBPIXELS);
            self.stars.push(Particle::new(TwoVec::new(x as i64, y as i64), TwoVec::zero()));
            n = n + 1;
            assert(self.stars@.subrange(0, old(self).stars@.len() as int) =~= old(self).stars@);
        }
    }

    /// Adds a firework named `name`, of the next variant in the spawning
    /// cycle, and asks for the launch sound.
    pub fn spawn_firework(&mut self, name: String) -> (cue: Cue)
        requires
            old(self).wf(),
        ensures
            final(self).wf(),
            cue == Cue::Launch,
            final(self).width == old(self).width,
            final(self).height == old(self).height,
            final(self).stars@ == old(self).stars@,
            final(self).fireworks@.len() == old(self).fireworks@.len() + 1,
            final(self).fireworks@.drop_last() == old(self).fireworks@,
            final(self).fireworks@.last().variant() == old(self).fireworks@.len() % (
            SPAWN_CYCLE as nat),
            final(self).fireworks@.last().name() == name,
            final(self).fireworks@.last().shell().launched(old(self).width, old(self).height),
    {
        let variant = self.fireworks.len() % SPAWN_CYCLE;
        let f = Spawned::new(variant, name, self.width, self.height);
        self.fireworks.push(f);
        assert(self.fireworks@.drop_last() =~= old(self).fireworks@);
        Cue::Launch
    }

    /// Advances every firework by one tick; returns, for each firework in
    /// order, the sound that its tick asks for.
    pub fn step(&mut self) -> (cues: Vec<Option<Cue>>)
        requires
            old(self).wf(),
        ensures
            final(self).wf(),
            final(self).width == old(self).width,
            final(self).height == old(self).height,
            final(self).stars@ == old(self).stars@,
            final(self).fireworks@.len() == old(self).fireworks@.len(),
            cues@.len() == old(self).fireworks@.len(),
            forall|i: int|
                0 <= i < old(self).fireworks@.len() ==> ticked(
                    old(self).fireworks@[i].shell(),
                    #[trigger] final(self).fireworks@[i].shell(),
                    old(self).width,
                    old(self).height,
                    cues@[i],
                ) && final(self).fireworks@[i].variant() == old(self).fireworks@[i].variant()
                    && final(self).fireworks@[i].name() == old(self).fireworks@[i].name(),
    {
        let mut cues: Vec<Option<Cue>> = Vec::new();
        let width = self.width;
        let height = self.height;
        let mut n: usize = 0;
        while n < self.fireworks.len()
            invariant
                n <= self.fireworks@.len() == old(self).fireworks@.len(),
                cues@.len() == n,
                width == self.width == old(self).width,
                height == self.height == old(self).height,
                self.stars@ == old(self).stars@,
                self.wf(),
                forall|i: int|
                    n <= i < self.fireworks@.len() ==> #[trigger] self.fireworks@[i]
                        == old(self).fireworks@[i],
                forall|i: int|
                    0 <= i < n ==> ticked(
                        old(self).fireworks@[i].shell(),
                        #[trigger] self.fireworks@[i].shell(),
                        width,
                        height,
                        cues@[i],
                    ) && self.fireworks@[i].variant() == old(self).fireworks@[i].variant()
                        && self.fireworks@[i].name() == old(self).fireworks@[i].name(),
            decreases self.fireworks@.len() - n,
        {
            let cue = self.fireworks[n].step(width, height);
            cues.push(cue);
            n = n + 1;
        }
        cues
    }

    /// Draws the stars, then every firework in the order they were spawned.
    pub fn draw(&self) -> (marks: Vec<Mark>)
        requires
            self.wf(),
        ensures
            marks@ == self.marks(),
    {
        let mut marks: Vec<Mark> = Vec::new();
        let mut n: usize = 0;
        while n < self.stars.len()
            invariant
                n <= self.stars@.len(),
                marks@ == self.stars@.subrange(0, n as int).map_values(|s: Particle| star_mark(s)),
            decreases self.stars@.len() - n,
        {
            marks.push(
                Mark {
                    pos: self.stars[n].pos(),
                    colour: crate::colour::yellow(),
                    alpha_num: 1,
                    alpha_den: 1,
                    radius_tenths: STAR_RADIUS,
                },
            );
            n = n + 1;
            assert(marks@ =~= self.stars@.subrange(0, n as int).map_values(
                |s: Particle| star_mark(s),
            ));
        }
        assert(self.stars@.subrange(0, n as int) =~= self.stars@);
        let ghost stars_marks = marks@;
        let mut k: usize = 0;
        while k < self.fireworks.len()
            invariant
                self.wf(),
                k <= self.fireworks@.len(),
                stars_marks == self.stars@.map_values(|s: Particle| star_mark(s)),
                marks@ == stars_marks + fireworks_marks(self.fireworks@, k as nat),
            decreases self.fireworks@.len() - k,
        {
            let mut more = self.fireworks[k].draw();
            marks.append(&mut more);
            k = k + 1;
            assert(marks@ =~= stars_marks + fireworks_marks(self.fireworks@, k as nat));
        }
        marks
    }
}

proof fn lemma_scale_within(v: int, old_dim: int, new_dim: int)
    requires
        old_dim >= 1,
        0 <= new_dim <= u32::MAX,
        old_dim <= u32::MAX,
        0 <= v <= old_dim * 1000 || v == 0,
    ensures
        0 <= v * new_dim <= u32::MAX * (u32::MAX * 1000),
        0 <= v * new_dim / old_dim <= new_dim * 1000,
{
    assert(0 <= v * new_dim <= old_dim * 1000 * new_dim) by (nonlinear_arith)
        requires
            0 <= v <= old_dim * 1000,
            0 <= new_dim,
    ;
    assert(old_dim * 1000 * new_dim <= u32::MAX * (u32::MAX * 1000)) by (nonlinear_arith)
        requires
            1 <= old_dim <= u32::MAX,
            0 <= new_dim <= u32::MAX,
    ;
    vstd::arithmetic::div_mod::lemma_div_is_ordered(v * new_dim, old_dim * 1000 * new_dim, old_dim);
    assert(old_dim * 1000 * new_dim == old_dim * (1000 * new_dim)) by (nonlinear_arith);
    vstd::arithmetic::div_mod::lemma_div_multiples_vanish(1000 * new_dim, old_dim);
    vstd::arithmetic::div_mod::lemma_div_pos_is_pos(v * new_dim, old_dim);
}

} // verus!
