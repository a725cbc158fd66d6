use vstd::prelude::*;

use crate::chance::{draw_between, random_u64};
use crate::maths::{is_isqrt, isqrt};
use crate::sim::{Particle, TwoVec};

verus! {

/// Sub-pixels per pixel.
pub const SUBPIXELS: u64 = 1000;

/// Number of particles that one explosion produces.
pub const PARTICLE_COUNT: usize = 20;

/// Ticks that a burst lasts before the firework relaunches.
pub const PARTICLE_LIFETIME: u32 = 140;

/// A rising rocket explodes once its vertical velocity is above this.
pub const ROCKET_EXPLODE_SPEED: i64 = -2000;

/// Downward pull added to every velocity on every tick.
pub const GRAVITY_Y: i64 = 70;

/// Least and greatest base radius of an explosion, and the largest extra
/// speed that one particle may add to it.
pub const BURST_BASE_MIN: u64 = 1500;
pub const BURST_BASE_MAX: u64 = 3000;
pub const BURST_EXTRA_MAX: u64 = 500;

/// Bound on a launch speed for any `u32` viewport height.
pub const LAUNCH_SPEED_LIMIT: i64 = 22_000_000;

/// Bound on a viewport coordinate in sub-pixels.
pub const VIEW_LIMIT: i64 = 4_294_967_295_000;

/// Bound on a burst particle's position at the moment of explosion.
pub const POS_LIMIT: i64 = 10_000_000_000_000;

/// Bound on a burst particle's velocity at the moment of explosion.
pub const BURST_VEL_LIMIT: i64 = 10_000;

/// The gravity vector.
pub fn gravity() -> (g: TwoVec)
    ensures
        g.x == 0,
        g.y == GRAVITY_Y,
{
    TwoVec::new(0, GRAVITY_Y)
}

pub open spec fn abs(a: int) -> int {
    if a < 0 {
        -a
    } else {
        a
    }
}

/// The height used for launch speeds: a zero-height viewport counts as one
/// pixel high.
pub open spec fn launch_height(height: u32) -> int {
    if height == 0 {
        1
    } else {
        height as int
    }
}

/// A launch speed of `m` sub-pixels per tick lies within
/// `[sqrt(h) / 5.5, sqrt(h) / 3]` pixels per tick.
pub open spec fn launch_speed_ok(h: int, m: int) -> bool {
    0 <= m && 4_000_000 * h <= 121 * (m * m) && 9 * (m * m) <= 1_000_000 * h
}

/// A burst particle's velocity relative to the rocket: its length, rounded
/// down per component to a whole sub-pixel, lies within
/// `[BURST_BASE_MIN, BURST_BASE_MAX + BURST_EXTRA_MAX]`.
pub open spec fn burst_offset_ok(dx: int, dy: int) -> bool {
    &&& dx * dx + dy * dy <= 3500 * 3500
    &&& 1500 * 1500 < dx * dx + (abs(dy) + 1) * (abs(dy) + 1)
    &&& abs(dx) <= 3500
    &&& abs(dy) <= 3500
}

/// A rocket on its way up.
pub open spec fn rising(r: Particle) -> bool {
    &&& r.vel.x == 0
    &&& -LAUNCH_SPEED_LIMIT <= r.vel.y <= 0
    &&& 0 <= r.pos.x <= VIEW_LIMIT
    &&& r.pos.y <= VIEW_LIMIT
    &&& 70 * r.pos.y >= -LAUNCH_SPEED_LIMIT * (r.vel.y + LAUNCH_SPEED_LIMIT)
}

/// The particle after one tick under gravity.
pub open spec fn fallen(p: Particle) -> Particle {
    let vel = TwoVec { x: p.vel.x, y: (p.vel.y + GRAVITY_Y) as i64 };
    Particle { pos: TwoVec { x: (p.pos.x + vel.x) as i64, y: (p.pos.y + vel.y) as i64 }, vel }
}

/// A burst particle after `k` ticks of its burst stays within these bounds:
/// each tick adds at most `GRAVITY_Y` to its speed and at most
/// `BURST_VEL_LIMIT + GRAVITY_Y * PARTICLE_LIFETIME` to each coordinate.
pub open spec fn burst_bounded(p: Particle, k: int) -> bool {
    let reach = POS_LIMIT + k * 19_800;
    &&& abs(p.vel.x as int) <= BURST_VEL_LIMIT
    &&& -BURST_VEL_LIMIT <= p.vel.y <= BURST_VEL_LIMIT + 70 * k
    &&& abs(p.pos.x as int) <= reach
    &&& abs(p.pos.y as int) <= reach
}

/// The particles of an explosion of rocket `r`: all at the rocket's position,
/// each moving at the rocket's velocity plus an outward offset.
pub open spec fn burst_of(ps: Seq<Particle>, r: Particle) -> bool {
    &&& ps.len() == PARTICLE_COUNT
    &&& forall|i: int|
        0 <= i < ps.len() ==> #[trigger] ps[i].pos == r.pos && burst_offset_ok(
            ps[i].vel.x - r.vel.x,
            ps[i].vel.y - r.vel.y,
        )
}

/// The shared lifecycle state of every firework: the rocket, the phase flag,
/// the burst particles and the burst's countdown.
pub struct Shell {
    pub rocket: Particle,
    pub exploded: bool,
    pub particles: Vec<Particle>,
    pub lifetime: u32,
}

impl Shell {
    /// Ticks since the explosion.
    pub open spec fn elapsed(&self) -> int {
        PARTICLE_LIFETIME - self.lifetime
    }

    /// The phase invariant: rising with no burst, or bursting with exactly
    /// `PARTICLE_COUNT` particles and time left.
    pub open spec fn wf(&self) -> bool {
        if self.exploded {
            &&& self.particles@.len() == PARTICLE_COUNT
            &&& 1 <= self.lifetime <= PARTICLE_LIFETIME
            &&& forall|i: int|
                0 <= i < self.particles@.len() ==> burst_bounded(
                    #[trigger] self.particles@[i],
                    self.elapsed(),
                )
        } else {
            &&& self.particles@.len() == 0
            &&& self.lifetime == PARTICLE_LIFETIME
            &&& rising(self.rocket)
        }
    }

    /// The state right after a launch from a `width` × `height` viewport.
    pub open spec fn launched(&self, width: u32, height: u32) -> bool {
        &&& !self.exploded
        &&& self.particles@.len() == 0
        &&& self.lifetime == PARTICLE_LIFETIME
        &&& self.rocket.vel.x == 0
        &&& launch_speed_ok(launch_height(height), -self.rocket.vel.y)
        &&& 0 <= self.rocket.pos.x <= width * SUBPIXELS
        &&& self.rocket.pos.y == height * SUBPIXELS
    }

    /// The state right after a launch with the draws `x_draw` and
    /// `speed_draw`.
    pub open spec fn launched_with(
        &self,
        width: u32,
        height: u32,
        x_draw: u64,
        speed_draw: u64,
    ) -> bool {
        &&& self.launched(width, height)
        &&& self.rocket.pos.x == (x_draw as int) % (width * SUBPIXELS + 1)
        &&& forall|s: int|
            #[trigger] is_isqrt(launch_height(height) * 1_000_000, s) ==> -self.rocket.vel.y == launch_speed_min(s)
                + (speed_draw as int) % (launch_speed_max(s) - launch_speed_min(s) + 1)
    }
}

/// Slowest launch speed, in sub-pixels per tick, where `s` is the integer
/// square root of the height in square sub-pixels.
pub open spec fn launch_speed_min(s: int) -> int {
    (2 * s + 12) / 11
}

/// Fastest launch speed, as `launch_speed_min`.
pub open spec fn launch_speed_max(s: int) -> int {
    s / 3
}

proof fn lemma_launch_range(h: int, s: int)
    requires
        1 <= h <= u32::MAX,
        is_isqrt(h * 1_000_000, s),
    ensures
        1000 <= s <= 65_536_000,
        launch_speed_min(s) <= launch_speed_max(s),
        launch_speed_max(s) <= LAUNCH_SPEED_LIMIT,
        forall|m: int|
            launch_speed_min(s) <= m <= launch_speed_max(s) ==> #[trigger] launch_speed_ok(h, m),
{
    assert(1000 <= s) by (nonlinear_arith)
        requires
            1 <= h,
            h * 1_000_000 < (s + 1) * (s + 1),
            0 <= s,
    ;
    assert(s <= 65_536_000) by (nonlinear_arith)
        requires
            h <= u32::MAX,
            s * s <= h * 1_000_000,
            0 <= s,
    ;
    assert forall|m: int| launch_speed_min(s) <= m <= launch_speed_max(s) implies #[trigger] launch_speed_ok(h, m) by {
        assert(11 * m >= 2 * s + 2);
        assert(3 * m <= s);
        assert(4_000_000 * h <= 121 * (m * m)) by (nonlinear_arith)
            requires
                11 * m >= 2 * s + 2,
                s >= 0,
                h * 1_000_000 < (s + 1) * (s + 1),
        ;
        assert(9 * (m * m) <= 1_000_000 * h) by (nonlinear_arith)
            requires
                3 * m <= s,
                m >= 0,
                s * s <= h * 1_000_000,
        ;
    }
}

/// Slowest and fastest launch speed, in sub-pixels per tick, for a viewport
/// `height` pixels high.
pub fn vel_min_max(height: u32) -> (r: (u64, u64))
    ensures
        forall|s: int|
            #[trigger] is_isqrt(launch_height(height) * 1_000_000, s) ==> r.0 == launch_speed_min(s) && r.1
                == launch_speed_max(s),
        r.0 <= r.1 <= LAUNCH_SPEED_LIMIT,
        forall|m: int| r.0 <= m <= r.1 ==> #[trigger] launch_speed_ok(launch_height(height), m),
{
    let h: u64 = if height == 0 {
        1
    } else {
        height as u64
    };
    let s = isqrt(h * 1_000_000);
    proof {
        lemma_launch_range(h as int, s as int);
        assert forall|t: int| #[trigger] is_isqrt(h * 1_000_000, t) implies t == s by {
            lemma_isqrt_unique(h * 1_000_000, t, s as int);
        }
    }
    ((2 * s + 12) / 11, s / 3)
}

proof fn lemma_isqrt_unique(n: int, a: int, b: int)
    requires
        is_isqrt(n, a),
        is_isqrt(n, b),
    ensures
        a == b,
{
    if a < b {
        assert((a + 1) * (a + 1) <= b * b) by (nonlinear_arith)
            requires
                0 <= a < b,
        ;
    } else if b < a {
        assert((b + 1) * (b + 1) <= a * a) by (nonlinear_arith)
            requires
                0 <= b < a,
        ;
    }
}

/// A rocket that has just passed its apex.
pub open spec fn at_apex(r: Particle) -> bool {
    &&& r.vel.x == 0
    &&& ROCKET_EXPLODE_SPEED < r.vel.y <= GRAVITY_Y
    &&& 0 <= r.pos.x <= VIEW_LIMIT
    &&& abs(r.pos.y as int) <= POS_LIMIT
}

/// The velocity, relative to the rocket, of one burst particle: the x part is
/// `dx_draw` reduced to `[-speed, speed]`, the y part is as long as the
/// remaining speed allows, rounded down, and points up when `up` holds.
pub fn burst_offset(speed: u64, dx_draw: u64, up: bool) -> (o: TwoVec)
    requires
        1500 <= speed <= 3500,
    ensures
        o.x == (dx_draw as int) % (2 * speed + 1) - speed,
        is_isqrt(speed * speed - o.x * o.x, abs(o.y as int)),
        up ==> o.y <= 0,
        !up ==> o.y >= 0,
        burst_offset_ok(o.x as int, o.y as int),
{
    let dx: i64 = (dx_draw % (2 * speed + 1)) as i64 - speed as i64;
    assert(speed * speed <= 3500 * 3500) by (nonlinear_arith)
        requires
            speed <= 3500,
    ;
    let sq: i64 = speed as i64 * speed as i64;
    assert(0 <= dx * dx <= sq) by (nonlinear_arith)
        requires
            -(speed as int) <= dx <= speed,
            sq == speed * speed,
    ;
    let dy = isqrt((sq - dx * dx) as u64);
    proof {
        let d = dy as int;
        assert(d * d <= sq - dx * dx);
        assert(d <= 3500) by (nonlinear_arith)
            requires
                d * d <= sq - dx * dx,
                sq <= 3500 * 3500,
                dx * dx >= 0,
                d >= 0,
        ;
        assert(1500 * 1500 <= sq) by (nonlinear_arith)
            requires
                1500 <= speed,
                sq == speed * speed,
        ;
    }
    let y: i64 = if up {
        -(dy as i64)
    } else {
        dy as i64
    };
    proof {
        let d = dy as int;
        assert(abs(y as int) == d);
        assert(y * y == d * d) by (nonlinear_arith)
            requires
                y == d || y == -d,
        ;
    }
    TwoVec::new(dx, y)
}

/// Velocity offsets for one explosion: a base radius is drawn once, and each
/// particle adds its own extra speed and direction.
pub fn random_burst() -> (offsets: Vec<TwoVec>)
    ensures
        offsets@.len() == PARTICLE_COUNT,
        forall|i: int|
            0 <= i < offsets@.len() ==> burst_offset_ok(
                #[trigger] offsets@[i].x as int,
                offsets@[i].y as int,
            ),
{
    let base = draw_between(random_u64(), BURST_BASE_MIN, BURST_BASE_MAX);
    let mut offsets: Vec<TwoVec> = Vec::new();
    let mut n: usize = 0;
    while n < PARTICLE_COUNT
        invariant
            n <= PARTICLE_COUNT,
            offsets@.len() == n,
            BURST_BASE_MIN <= base <= BURST_BASE_MAX,
            forall|i: int|
                0 <= i < offsets@.len() ==> burst_offset_ok(
                    #[trigger] offsets@[i].x as int,
                    offsets@[i].y as int,
                ),
        decreases PARTICLE_COUNT - n,
    {
        let speed = base + draw_between(random_u64(), 0, BURST_EXTRA_MAX);
        let up = random_u64() % 2 == 0;
        offsets.push(burst_offset(speed, random_u64(), up));
        n = n + 1;
    }
    offsets
}

impl Shell {
    /// A rising rocket at the bottom of a `width` × `height` viewport, with
    /// its position and speed taken from two draws.
    pub fn new_with(width: u32, height: u32, x_draw: u64, speed_draw: u64) -> (s: Shell)
        ensures
            s.wf(),
            s.launched_with(width, height, x_draw, speed_draw),
    {
        let mut s = Shell {
            rocket: Particle::new(TwoVec::zero(), TwoVec::zero()),
            exploded: false,
            particles: Vec::new(),
            lifetime: PARTICLE_LIFETIME,
        };
        s.launch_with(width, height, x_draw, speed_draw);
        s
    }

    /// A rising rocket at a random place on the bottom of the viewport.
    pub fn new(width: u32, height: u32) -> (s: Shell)
        ensures
            s.wf(),
            s.launched(width, height),
    {
        Shell::new_with(width, height, random_u64(), random_u64())
    }

    /// Puts the rocket back at the bottom of the viewport, rising, and clears
    /// the burst; position and speed are taken from two draws.
    pub fn launch_with(&mut self, width: u32, height: u32, x_draw: u64, speed_draw: u64)
        ensures
            final(self).wf(),
            final(self).launched_with(width, height, x_draw, speed_draw),
    {
        let (vel_min, vel_max) = vel_min_max(height);
        let span: u64 = width as u64 * SUBPIXELS;
        let x = draw_between(x_draw, 0, span);
        let speed = draw_between(speed_draw, vel_min, vel_max);
        self.rocket.set_pos(TwoVec::new(x as i64, height as i64 * SUBPIXELS as i64));
        self.rocket.set_vel(TwoVec::new(0, -(speed as i64)));
        self.clear_burst();
        proof {
            let m = speed as int;
            assert(launch_speed_ok(launch_height(height), m));
            assert(70 * self.rocket.pos.y >= -LAUNCH_SPEED_LIMIT * (self.rocket.vel.y
                + LAUNCH_SPEED_LIMIT)) by (nonlinear_arith)
                requires
                    self.rocket.pos.y >= 0,
                    self.rocket.vel.y + LAUNCH_SPEED_LIMIT >= 0,
            ;
        }
    }

    /// Back to the rising phase: no burst, and a full lifetime for the next.
    pub fn clear_burst(&mut self)
        ensures
            final(self).rocket == old(self).rocket,
            !final(self).exploded,
            final(self).particles@.len() == 0,
            final(self).lifetime == PARTICLE_LIFETIME,
    {
        self.exploded = false;
        self.particles.clear();
        self.lifetime = PARTICLE_LIFETIME;
    }

    /// Relaunches with fresh random position and speed.
    pub fn launch(&mut self, width: u32, height: u32)
        ensures
            final(self).wf(),
            final(self).launched(width, height),
    {
        self.launch_with(width, height, random_u64(), random_u64());
    }

    /// Applies gravity to the rising rocket and moves it one tick; tells
    /// whether it has reached its apex.
    pub fn ascend(&mut self) -> (apex: bool)
        requires
            old(self).wf(),
            !old(self).exploded,
        ensures
            final(self).rocket == fallen(old(self).rocket),
            final(self).exploded == old(self).exploded,
            final(self).particles@ == old(self).particles@,
            final(self).lifetime == old(self).lifetime,
            apex == (final(self).rocket.vel.y > ROCKET_EXPLODE_SPEED),
            apex ==> at_apex(final(self).rocket),
            !apex ==> final(self).wf(),
    {
        let ghost r0 = self.rocket;
        self.rocket.apply_force(gravity());
        self.rocket.step();
        proof {
            let r = self.rocket;
            assert(70 * r.pos.y >= -LAUNCH_SPEED_LIMIT * (r.vel.y + LAUNCH_SPEED_LIMIT));
            assert(70 * r.pos.y >= -LAUNCH_SPEED_LIMIT * (LAUNCH_SPEED_LIMIT + GRAVITY_Y)) by (nonlinear_arith)
                requires
                    70 * r.pos.y >= -LAUNCH_SPEED_LIMIT * (r.vel.y + LAUNCH_SPEED_LIMIT),
                    r.vel.y <= GRAVITY_Y,
            ;
        }
        self.rocket.vel().y() > ROCKET_EXPLODE_SPEED
    }

    /// Explodes the rocket: one particle per offset, at the rocket's position,
    /// moving at the rocket's velocity plus that offset.
    pub fn burst_with(&mut self, offsets: &Vec<TwoVec>)
        requires
            at_apex(old(self).rocket),
            old(self).lifetime == PARTICLE_LIFETIME,
            offsets@.len() == PARTICLE_COUNT,
            forall|i: int|
                0 <= i < offsets@.len() ==> burst_offset_ok(
                    #[trigger] offsets@[i].x as int,
                    offsets@[i].y as int,
                ),
        ensures
            final(self).wf(),
            final(self).exploded,
            final(self).rocket == old(self).rocket,
            final(self).lifetime == old(self).lifetime,
            burst_of(final(self).particles@, old(self).rocket),
            forall|i: int|
                0 <= i < PARTICLE_COUNT ==> #[trigger] final(self).particles@[i].vel.x
                    == old(self).rocket.vel.x + offsets@[i].x && final(self).particles@[i].vel.y
                    == old(self).rocket.vel.y + offsets@[i].y,
    {
        self.exploded = true;
        self.particles.clear();
        let pos = self.rocket.pos();
        let vel = self.rocket.vel();
        let mut n: usize = 0;
        while n < offsets.len()
            invariant
                n <= offsets@.len() == PARTICLE_COUNT,
                self.particles@.len() == n,
                self.exploded,
                self.lifetime == PARTICLE_LIFETIME,
                self.rocket == old(self).rocket,
                pos == self.rocket.pos,
                vel == self.rocket.vel,
                at_apex(self.rocket),
                forall|i: int|
                    0 <= i < offsets@.len() ==> burst_offset_ok(
                        #[trigger] offsets@[i].x as int,
                        offsets@[i].y as int,
                    ),
                forall|i: int|
                    0 <= i < n ==> #[trigger] self.particles@[i].pos == pos
                        && self.particles@[i].vel.x == vel.x + offsets@[i].x
                        && self.particles@[i].vel.y == vel.y + offsets@[i].y,
            decreases offsets@.len() - n,
        {
            let o = offsets[n];
            let mut particle = Particle::new(pos, o);
            particle.set_vel(particle.vel().add(vel));
            self.particles.push(particle);
            n = n + 1;
        }
        proof {
            assert forall|i: int| 0 <= i < self.particles@.len() implies burst_bounded(
                #[trigger] self.particles@[i],
                self.elapsed(),
            ) by {
                assert(burst_offset_ok(offsets@[i].x as int, offsets@[i].y as int));
                let p = self.particles@[i];
                assert(p.pos == pos);
                assert(self.elapsed() == 0);
                assert(abs(p.vel.x as int) <= BURST_VEL_LIMIT);
                assert(-BURST_VEL_LIMIT <= p.vel.y <= BURST_VEL_LIMIT);
                assert(abs(p.pos.x as int) <= POS_LIMIT);
                assert(abs(p.pos.y as int) <= POS_LIMIT);
            }
        }
    }

    /// Moves every burst particle one tick under gravity and counts the burst
    /// down; tells whether its time is up.
    pub fn age(&mut self) -> (expired: bool)
        requires
            old(self).wf(),
            old(self).exploded,
        ensures
            final(self).rocket == old(self).rocket,
            final(self).exploded,
            final(self).lifetime == old(self).lifetime - 1,
            final(self).particles@.len() == old(self).particles@.len(),
            forall|i: int|
                0 <= i < old(self).particles@.len() ==> #[trigger] final(self).particles@[i]
                    == fallen(old(self).particles@[i]),
            expired == (final(self).lifetime == 0),
            !expired ==> final(self).wf(),
    {
        let ghost k = self.elapsed();
        let mut n: usize = 0;
        while n < self.particles.len()
            invariant
                0 <= k < PARTICLE_LIFETIME,
                k == old(self).elapsed(),
                n <= self.particles@.len() == old(self).particles@.len(),
                self.rocket == old(self).rocket,
                self.exploded,
                self.lifetime == old(self).lifetime,
                forall|i: int|
                    0 <= i < n ==> #[trigger] self.particles@[i] == fallen(old(self).particles@[i]),
                forall|i: int|
                    n <= i < self.particles@.len() ==> #[trigger] self.particles@[i]
                        == old(self).particles@[i],
                forall|i: int|
                    0 <= i < old(self).particles@.len() ==> burst_bounded(
                        #[trigger] old(self).particles@[i],
                        k,
                    ),
            decreases self.particles@.len() - n,
        {
            let mut p = self.particles[n];
            assert(burst_bounded(old(self).particles@[n as int], k));
            p.apply_force(gravity());
            p.step();
            self.particles.set(n, p);
            n = n + 1;
        }
        self.lifetime = self.lifetime - 1;
        proof {
            assert forall|i: int| 0 <= i < self.particles@.len() implies burst_bounded(
                #[trigger] self.particles@[i],
                k + 1,
            ) by {
                assert(burst_bounded(old(self).particles@[i], k));
            }
        }
        self.lifetime == 0
    }
}

/// The rocket after `n` ticks of rising.
pub open spec fn risen(r: Particle, n: nat) -> Particle
    decreases n,
{
    if n == 0 {
        r
    } else {
        fallen(risen(r, (n - 1) as nat))
    }
}

/// The tick on which a rocket launched at vertical velocity `v0` passes its
/// apex.
pub open spec fn apex_tick(v0: int) -> int {
    if v0 > ROCKET_EXPLODE_SPEED - GRAVITY_Y {
        1
    } else {
        (ROCKET_EXPLODE_SPEED - v0) / (GRAVITY_Y as int) + 1
    }
}

proof fn lemma_risen_vel(r: Particle, n: nat)
    requires
        r.vel.y <= 0,
        -LAUNCH_SPEED_LIMIT <= r.vel.y,
        n <= apex_tick(r.vel.y as int),
    ensures
        risen(r, n).vel.x == r.vel.x,
        risen(r, n).vel.y == r.vel.y + GRAVITY_Y * n,
    decreases n,
{
    if n > 0 {
        lemma_risen_vel(r, (n - 1) as nat);
    }
}

/// Under constant gravity a rising rocket's vertical velocity grows by
/// `GRAVITY_Y` per tick, so it passes the explosion threshold on tick
/// `apex_tick` of its launch velocity, and on no earlier tick.
pub proof fn lemma_apex_tick(r: Particle)
    requires
        rising(r),
    ensures
        apex_tick(r.vel.y as int) >= 1,
        risen(r, apex_tick(r.vel.y as int) as nat).vel.y > ROCKET_EXPLODE_SPEED,
        forall|k: nat|
            1 <= k < apex_tick(r.vel.y as int) ==> (#[trigger] risen(r, k)).vel.y
                <= ROCKET_EXPLODE_SPEED,
{
    let t = apex_tick(r.vel.y as int);
    lemma_risen_vel(r, t as nat);
    assert forall|k: nat| 1 <= k < apex_tick(r.vel.y as int) implies (#[trigger] risen(
        r,
        k,
    )).vel.y <= ROCKET_EXPLODE_SPEED by {
        lemma_risen_vel(r, k);
    }
}

} // verus!
