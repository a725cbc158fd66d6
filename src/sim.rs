use vstd::prelude::*;

verus! {

/// Bound on every coordinate that the engine integrates.
pub const COORD_LIMIT: i64 = 0x0100_0000_0000_0000;

/// A two-dimensional vector of sub-pixel integers.
#[derive(Clone, Copy, Debug, PartialEq, Eq, Structural)]
pub struct TwoVec {
    pub x: i64,
    pub y: i64,
}

/// Both components of `v` lie within `COORD_LIMIT`.
pub open spec fn bounded(v: TwoVec) -> bool {
    -COORD_LIMIT <= v.x <= COORD_LIMIT && -COORD_LIMIT <= v.y <= COORD_LIMIT
}

impl TwoVec {
    pub fn new(x: i64, y: i64) -> (r: TwoVec)
        ensures
            r.x == x,
            r.y == y,
    {
        TwoVec { x, y }
    }

    pub fn zero() -> (r: TwoVec)
        ensures
            r.x == 0,
            r.y == 0,
    {
        TwoVec { x: 0, y: 0 }
    }

    pub fn x(&self) -> (r: i64)
        ensures
            r == self.x,
    {
        self.x
    }

    pub fn y(&self) -> (r: i64)
        ensures
            r == self.y,
    {
        self.y
    }

    /// Component-wise sum.
    pub fn add(self, other: TwoVec) -> (r: TwoVec)
        requires
            bounded(self),
            bounded(other),
        ensures
            r.x == self.x + other.x,
            r.y == self.y + other.y,
    {
        TwoVec { x: self.x + other.x, y: self.y + other.y }
    }

    /// Multiplies both components by `s`.
    pub fn scale(self, s: i64) -> (r: TwoVec)
        requires
            bounded(self),
            -COORD_LIMIT <= s <= COORD_LIMIT,
            -COORD_LIMIT <= self.x * s <= COORD_LIMIT,
            -COORD_LIMIT <= self.y * s <= COORD_LIMIT,
        ensures
            r.x == self.x * s,
            r.y == self.y * s,
    {
        TwoVec { x: self.x * s, y: self.y * s }
    }
}

/// A point mass: a position and a velocity.
#[derive(Clone, Copy, Debug, PartialEq, Eq, Structural)]
pub struct Particle {
    pub pos: TwoVec,
    pub vel: TwoVec,
}

impl Particle {
    pub fn new(pos: TwoVec, vel: TwoVec) -> (r: Particle)
        ensures
            r.pos == pos,
            r.vel == vel,
    {
        Particle { pos, vel }
    }

    pub fn pos(&self) -> (r: TwoVec)
        ensures
            r == self.pos,
    {
        self.pos
    }

    pub fn vel(&self) -> (r: TwoVec)
        ensures
            r == self.vel,
    {
        self.vel
    }

    pub fn set_pos(&mut self, pos: TwoVec)
        ensures
            final(self).pos == pos,
            final(self).vel == old(self).vel,
    {
        self.pos = pos;
    }

    pub fn set_vel(&mut self, vel: TwoVec)
        ensures
            final(self).pos == old(self).pos,
            final(self).vel == vel,
    {
        self.vel = vel;
    }

    /// Accumulates `force` into the velocity.
    pub fn apply_force(&mut self, force: TwoVec)
        requires
            bounded(old(self).vel),
            bounded(force),
        ensures
            final(self).pos == old(self).pos,
            final(self).vel.x == old(self).vel.x + force.x,
            final(self).vel.y == old(self).vel.y + force.y,
    {
        self.vel = self.vel.add(force);
    }

    /// One explicit Euler step: the position advances by the velocity.
    pub fn step(&mut self)
        requires
            bounded(old(self).pos),
            bounded(old(self).vel),
        ensures
            final(self).vel == old(self).vel,
            final(self).pos.x == old(self).pos.x + old(self).vel.x,
            final(self).pos.y == old(self).pos.y + old(self).vel.y,
    {
        self.pos = self.pos.add(self.vel);
    }
}

} // verus!
