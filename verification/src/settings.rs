use vstd::prelude::*;

verus! {

/// The tuning of a run. It is fixed before the first tick and only read
/// afterwards.
#[derive(Clone, Copy, Debug, PartialEq, Eq, Structural)]
pub struct PhysicsSettings {
    /// Vertical acceleration once the jump key is released.
    pub normal_gravity: i32,
    /// Vertical acceleration while the jump key is held.
    pub hold_gravity: i32,
    /// Vertical velocity at the start of a jump.
    pub initial_jump_velocity: i32,
    /// Size of the horizontal acceleration under a move key.
    pub horizontal_a: i32,
    /// Size of the horizontal deceleration with no move key down.
    pub friction: i32,
    /// The horizontal speed at or under which the player is brought to rest.
    pub stopping_horizontal_speed: i32,
}

impl PhysicsSettings {
    /// Each acceleration that is applied in both directions has an
    /// opposite.
    pub open spec fn wf(self) -> bool {
        &&& self.horizontal_a > i32::MIN
        &&& self.friction > i32::MIN
    }

    /// Tells whether the settings can be used.
    pub fn is_wf(&self) -> (ok: bool)
        ensures
            ok == self.wf(),
    {
        self.horizontal_a > i32::MIN && self.friction > i32::MIN
    }
}

} // verus!
