use vstd::prelude::*;
use crate::vector::{Vec2, trunc_div, fits};

verus! {

/// The number of ticks that make up a second. Every tick lasts one part in
/// this many of a second, and both integration steps use the same length.
pub const TICKS_PER_SECOND: i32 = 60;

/// Where a body is.
#[derive(Clone, Copy, Debug, PartialEq, Eq, Structural)]
pub struct Position(pub Vec2);

/// How far a body moves in a second.
#[derive(Clone, Copy, Debug, PartialEq, Eq, Structural)]
pub struct Velocity(pub Vec2);

/// By how much a body's velocity grows in a second.
#[derive(Clone, Copy, Debug, PartialEq, Eq, Structural)]
pub struct Acceleration(pub Vec2);

/// What a rate per second adds up to over one tick, rounded toward zero.
pub open spec fn per_tick(rate: int) -> int {
    trunc_div(rate, TICKS_PER_SECOND as int)
}

impl Velocity {
    /// The velocity after one tick under `a` can be held.
    pub open spec fn can_advance(self, a: Acceleration) -> bool {
        &&& fits(self.0.x + per_tick(a.0.x as int))
        &&& fits(self.0.y + per_tick(a.0.y as int))
    }

    /// The velocity after one tick under `a`.
    pub open spec fn advanced(self, a: Acceleration) -> Velocity {
        Velocity(
            Vec2 {
                x: (self.0.x + per_tick(a.0.x as int)) as i32,
                y: (self.0.y + per_tick(a.0.y as int)) as i32,
            },
        )
    }

    /// Tells whether `advance` may be called with `a`.
    pub fn advance_fits(&self, a: &Acceleration) -> (ok: bool)
        ensures
            ok == self.can_advance(*a),
    {
        let x: i64 = self.0.x as i64 + (a.0.x / TICKS_PER_SECOND) as i64;
        let y: i64 = self.0.y as i64 + (a.0.y / TICKS_PER_SECOND) as i64;
        -0x8000_0000 <= x && x <= 0x7fff_ffff && -0x8000_0000 <= y && y <= 0x7fff_ffff
    }

    /// Adds to the velocity what the acceleration amounts to over one tick.
    pub fn advance(&mut self, a: &Acceleration)
        requires
            old(self).can_advance(*a),
        ensures
            final(self).0.x == old(self).0.x + per_tick(a.0.x as int),
            final(self).0.y == old(self).0.y + per_tick(a.0.y as int),
            *final(self) == old(self).advanced(*a),
    {
        self.0.x = self.0.x + a.0.x / TICKS_PER_SECOND;
        self.0.y = self.0.y + a.0.y / TICKS_PER_SECOND;
    }
}

impl Position {
    /// The position after one tick at `v` can be held.
    pub open spec fn can_advance(self, v: Velocity) -> bool {
        &&& fits(self.0.x + per_tick(v.0.x as int))
        &&& fits(self.0.y + per_tick(v.0.y as int))
    }

    /// The position after one tick at `v`.
    pub open spec fn advanced(self, v: Velocity) -> Position {
        Position(
            Vec2 {
                x: (self.0.x + per_tick(v.0.x as int)) as i32,
                y: (self.0.y + per_tick(v.0.y as int)) as i32,
            },
        )
    }

    /// Tells whether `advance` may be called with `v`.
    pub fn advance_fits(&self, v: &Velocity) -> (ok: bool)
        ensures
            ok == self.can_advance(*v),
    {
        let x: i64 = self.0.x as i64 + (v.0.x / TICKS_PER_SECOND) as i64;
        let y: i64 = self.0.y as i64 + (v.0.y / TICKS_PER_SECOND) as i64;
        -0x8000_0000 <= x && x <= 0x7fff_ffff && -0x8000_0000 <= y && y <= 0x7fff_ffff
    }

    /// Adds to the position what the velocity amounts to over one tick.
    pub fn advance(&mut self, v: &Velocity)
        requires
            old(self).can_advance(*v),
        ensures
            final(self).0.x == old(self).0.x + per_tick(v.0.x as int),
            final(self).0.y == old(self).0.y + per_tick(v.0.y as int),
            *final(self) == old(self).advanced(*v),
    {
        self.0.x = self.0.x + v.0.x / TICKS_PER_SECOND;
        self.0.y = self.0.y + v.0.y / TICKS_PER_SECOND;
    }
}

} // verus!
