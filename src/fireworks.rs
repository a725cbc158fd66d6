use vstd::prelude::*;

use crate::colour::Colour;
use crate::shell::{
    apex_tick, burst_of, fallen, lemma_apex_tick, risen, rising, Shell, PARTICLE_LIFETIME,
    ROCKET_EXPLODE_SPEED,
};
use crate::sim::{Particle, TwoVec};

verus! {

/// A sound effect that the host should play.
#[derive(Clone, Copy, Debug, PartialEq, Eq, Structural)]
pub enum Cue {
    Launch,
    Explosion,
}

/// A request to draw a filled circle: position in sub-pixels, opacity
/// `alpha_num / alpha_den`, radius in tenths of a pixel.
#[derive(Clone, Copy, Debug, PartialEq, Eq, Structural)]
pub struct Mark {
    pub pos: TwoVec,
    pub colour: Colour,
    pub alpha_num: u32,
    pub alpha_den: u32,
    pub radius_tenths: u32,
}

/// Radius of a rising rocket, in tenths of a pixel.
pub const ROCKET_RADIUS: u32 = 23;

/// Radius of a burst particle, in tenths of a pixel.
pub const BURST_RADIUS: u32 = 24;

/// One tick of the shared lifecycle takes `a` to `b`, with `cue` as the
/// sound that goes with it: a rising rocket falls back one tick and explodes
/// once past its apex; a burst ages one tick, and relaunches when its time
/// is up.
pub open spec fn ticked(a: Shell, b: Shell, width: u32, height: u32, cue: Option<Cue>) -> bool {
    if !a.exploded {
        let r = fallen(a.rocket);
        &&& b.rocket == r
        &&& b.lifetime == PARTICLE_LIFETIME
        &&& if r.vel.y > ROCKET_EXPLODE_SPEED {
            &&& b.exploded
            &&& burst_of(b.particles@, r)
            &&& cue == Some(Cue::Explosion)
        } else {
            &&& !b.exploded
            &&& b.particles@.len() == 0
            &&& cue == None::<Cue>
        }
    } else if a.lifetime > 1 {
        &&& b.exploded
        &&& b.rocket == a.rocket
        &&& b.lifetime == a.lifetime - 1
        &&& b.particles@.len() == a.particles@.len()
        &&& forall|i: int|
            0 <= i < a.particles@.len() ==> #[trigger] b.particles@[i] == fallen(a.particles@[i])
        &&& cue == None::<Cue>
    } else {
        &&& b.launched(width, height)
        &&& cue == Some(Cue::Launch)
    }
}

/// The mark of a rising rocket.
pub open spec fn rocket_mark(r: Particle) -> Mark {
    Mark {
        pos: r.pos,
        colour: Colour::Rgb { r: 255, g: 165, b: 0 },
        alpha_num: 1,
        alpha_den: 1,
        radius_tenths: ROCKET_RADIUS,
    }
}

/// The marks of a burst whose particles all share one colour and fade
/// together with the remaining `lifetime`.
pub open spec fn faded_marks(ps: Seq<Particle>, colour: Colour, lifetime: u32) -> Seq<Mark> {
    ps.map_values(
        |p: Particle|
            Mark {
                pos: p.pos,
                colour,
                alpha_num: lifetime,
                alpha_den: PARTICLE_LIFETIME,
                radius_tenths: BURST_RADIUS,
            },
    )
}

/// Draws the rising rocket.
pub fn draw_rocket(r: &Particle) -> (m: Mark)
    ensures
        m == rocket_mark(*r),
{
    Mark {
        pos: r.pos(),
        colour: crate::colour::orange(),
        alpha_num: 1,
        alpha_den: 1,
        radius_tenths: ROCKET_RADIUS,
    }
}

/// Draws a uniformly fading burst.
pub fn draw_faded(ps: &Vec<Particle>, colour: Colour, lifetime: u32) -> (marks: Vec<Mark>)
    ensures
        marks@ == faded_marks(ps@, colour, lifetime),
{
    let mut marks: Vec<Mark> = Vec::new();
    let mut n: usize = 0;
    while n < ps.len()
        invariant
            n <= ps@.len(),
            marks@ == faded_marks(ps@.subrange(0, n as int), colour, lifetime),
        decreases ps@.len() - n,
    {
        marks.push(
            Mark {
                pos: ps[n].pos(),
                colour,
                alpha_num: lifetime,
                alpha_den: PARTICLE_LIFETIME,
                radius_tenths: BURST_RADIUS,
            },
        );
        n = n + 1;
        assert(marks@ =~= faded_marks(ps@.subrange(0, n as int), colour, lifetime));
    }
    assert(ps@.subrange(0, n as int) =~= ps@);
    marks
}

proof fn lemma_countdown_upto(
    run: Seq<Shell>,
    cues: Seq<Option<Cue>>,
    width: u32,
    height: u32,
    k: int,
)
    requires
        run.len() == PARTICLE_LIFETIME + 1,
        cues.len() == PARTICLE_LIFETIME,
        run[0].exploded,
        run[0].lifetime == PARTICLE_LIFETIME,
        forall|j: int|
            0 <= j < PARTICLE_LIFETIME ==> ticked(
                #[trigger] run[j],
                run[j + 1],
                width,
                height,
                cues[j],
            ),
        0 <= k < PARTICLE_LIFETIME,
    ensures
        run[k].exploded,
        run[k].lifetime == PARTICLE_LIFETIME - k,
    decreases k,
{
    if k > 0 {
        lemma_countdown_upto(run, cues, width, height, k - 1);
        assert(ticked(run[k - 1], run[k], width, height, cues[k - 1]));
    }
}

/// A burst lasts exactly `PARTICLE_LIFETIME` ticks: along any run of ticks
/// that starts right after an explosion, the firework is still bursting
/// after `k < PARTICLE_LIFETIME` ticks, with `PARTICLE_LIFETIME - k` ticks
/// left and no sound, and the tick that would bring the count to zero
/// relaunches it from the bottom of the viewport.
pub proof fn lemma_burst_countdown(
    run: Seq<Shell>,
    cues: Seq<Option<Cue>>,
    width: u32,
    height: u32,
)
    requires
        run.len() == PARTICLE_LIFETIME + 1,
        cues.len() == PARTICLE_LIFETIME,
        run[0].exploded,
        run[0].lifetime == PARTICLE_LIFETIME,
        forall|j: int|
            0 <= j < PARTICLE_LIFETIME ==> ticked(
                #[trigger] run[j],
                run[j + 1],
                width,
                height,
                cues[j],
            ),
    ensures
        forall|k: int|
            0 <= k < PARTICLE_LIFETIME ==> (#[trigger] run[k]).exploded && run[k].lifetime
                == PARTICLE_LIFETIME - k,
        forall|k: int| 0 <= k < PARTICLE_LIFETIME - 1 ==> #[trigger] cues[k] == None::<Cue>,
        cues[PARTICLE_LIFETIME - 1] == Some(Cue::Launch),
        !run[PARTICLE_LIFETIME as int].exploded,
        run[PARTICLE_LIFETIME as int].launched(width, height),
{
    assert forall|k: int| 0 <= k < PARTICLE_LIFETIME implies (#[trigger] run[k]).exploded
        && run[k].lifetime == PARTICLE_LIFETIME - k by {
        lemma_countdown_upto(run, cues, width, height, k);
    }
    assert forall|k: int| 0 <= k < PARTICLE_LIFETIME - 1 implies #[trigger] cues[k]
        == None::<Cue> by {
        lemma_countdown_upto(run, cues, width, height, k);
        assert(ticked(run[k], run[k + 1], width, height, cues[k]));
    }
    lemma_countdown_upto(run, cues, width, height, PARTICLE_LIFETIME - 1);
    assert(ticked(
        run[PARTICLE_LIFETIME - 1],
        run[PARTICLE_LIFETIME as int],
        width,
        height,
        cues[PARTICLE_LIFETIME - 1],
    ));
}

proof fn lemma_ascent_upto(run: Seq<Shell>, cues: Seq<Option<Cue>>, width: u32, height: u32, k: int)
    requires
        !run[0].exploded,
        rising(run[0].rocket),
        run.len() == apex_tick(run[0].rocket.vel.y as int) + 1,
        cues.len() == apex_tick(run[0].rocket.vel.y as int),
        forall|j: int|
            0 <= j < cues.len() ==> ticked(#[trigger] run[j], run[j + 1], width, height, cues[j]),
        0 <= k < cues.len(),
    ensures
        !run[k].exploded,
        run[k].rocket == risen(run[0].rocket, k as nat),
    decreases k,
{
    lemma_apex_tick(run[0].rocket);
    if k > 0 {
        lemma_ascent_upto(run, cues, width, height, k - 1);
        assert(ticked(run[k - 1], run[k], width, height, cues[k - 1]));
        assert(risen(run[0].rocket, k as nat) == fallen(risen(run[0].rocket, (k - 1) as nat)));
    }
}

/// A launched rocket explodes exactly on the tick on which its vertical
/// velocity, growing by `GRAVITY_Y` per tick, first exceeds
/// `ROCKET_EXPLODE_SPEED`: along any run of ticks from a rising rocket, it
/// is still rising, silent, and moved by gravity alone before `apex_tick`,
/// and that tick explodes it.
pub proof fn lemma_ascent(run: Seq<Shell>, cues: Seq<Option<Cue>>, width: u32, height: u32)
    requires
        !run[0].exploded,
        rising(run[0].rocket),
        run.len() == apex_tick(run[0].rocket.vel.y as int) + 1,
        cues.len() == apex_tick(run[0].rocket.vel.y as int),
        forall|j: int|
            0 <= j < cues.len() ==> ticked(#[trigger] run[j], run[j + 1], width, height, cues[j]),
    ensures
        forall|k: int|
            0 <= k < cues.len() ==> !(#[trigger] run[k]).exploded && run[k].rocket == risen(
                run[0].rocket,
                k as nat,
            ),
        forall|k: int| 0 <= k < cues.len() - 1 ==> #[trigger] cues[k] == None::<Cue>,
        run.last().exploded,
        cues.last() == Some(Cue::Explosion),
        burst_of(run.last().particles@, run.last().rocket),
{
    let t = apex_tick(run[0].rocket.vel.y as int);
    lemma_apex_tick(run[0].rocket);
    assert forall|k: int| 0 <= k < cues.len() implies !(#[trigger] run[k]).exploded
        && run[k].rocket == risen(run[0].rocket, k as nat) by {
        lemma_ascent_upto(run, cues, width, height, k);
    }
    assert forall|k: int| 0 <= k < cues.len() - 1 implies #[trigger] cues[k] == None::<Cue> by {
        lemma_ascent_upto(run, cues, width, height, k);
        assert(ticked(run[k], run[k + 1], width, height, cues[k]));
        assert(risen(run[0].rocket, (k + 1) as nat) == fallen(risen(run[0].rocket, k as nat)));
        assert(1 <= k + 1 < t);
        assert(risen(run[0].rocket, (k + 1) as nat).vel.y <= ROCKET_EXPLODE_SPEED);
    }
    lemma_ascent_upto(run, cues, width, height, t - 1);
    assert(ticked(run[t - 1], run[t], width, height, cues[t - 1]));
    assert(risen(run[0].rocket, t as nat) == fallen(risen(run[0].rocket, (t - 1) as nat)));
}

/// The behaviour that the scene asks of every firework: relaunch, advance
/// one tick, draw.
pub trait Firework {
    /// The variant's invariant.
    spec fn inv(&self) -> bool;

    /// The shared lifecycle state.
    spec fn lifecycle(&self) -> Shell;

    /// What the firework shows in its current state.
    spec fn shown(&self) -> Seq<Mark>;

    /// Relaunches from the bottom of a `width` × `height` viewport.
    fn reset(&mut self, width: u32, height: u32)
        ensures
            final(self).inv(),
            final(self).lifecycle().launched(width, height),
    ;

    /// Advances one tick; returns the sound that goes with it.
    fn step(&mut self, width: u32, height: u32) -> (cue: Option<Cue>)
        requires
            old(self).inv(),
        ensures
            final(self).inv(),
            ticked(old(self).lifecycle(), final(self).lifecycle(), width, height, cue),
    ;

    /// What to draw for the current state.
    fn draw(&self) -> (marks: Vec<Mark>)
        requires
            self.inv(),
        ensures
            marks@ == self.shown(),
    ;
}

} // verus!
