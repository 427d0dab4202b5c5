use vstd::prelude::*;
use crate::vector::Vec2;

verus! {

/// The name under which the rest of the game knows a body.
#[derive(Clone, Copy, Debug, PartialEq, Eq, Structural)]
pub struct Entity(pub u64);

/// The geometry of a collider, placed at its owner's position.
#[derive(Clone, Copy, Debug, PartialEq, Eq, Structural)]
pub enum CollisionShape {
    /// A box around the position, given by its full width and height.
    Rect(Vec2),
    /// A segment from the position to the position plus this displacement.
    Ray(Vec2),
}

impl CollisionShape {
    /// A ray has a direction: its displacement is not zero.
    pub open spec fn wf(self) -> bool {
        match self {
            CollisionShape::Rect(_) => true,
            CollisionShape::Ray(ray) => ray.x != 0 || ray.y != 0,
        }
    }

    /// Tells whether the shape may take part in collision tests.
    pub fn is_wf(&self) -> (ok: bool)
        ensures
            ok == self.wf(),
    {
        match self {
            CollisionShape::Rect(_) => true,
            CollisionShape::Ray(ray) => ray.x != 0 || ray.y != 0,
        }
    }
}

/// The role of a collider, by which overlaps are accepted or ignored.
#[derive(Clone, Copy, Debug, PartialEq, Eq, Structural)]
pub enum ColliderType {
    Player,
    PlayerRay,
    Ground,
}

/// A passive shape: others are tested against it.
#[derive(Clone, Copy, Debug, PartialEq, Eq, Structural)]
pub struct Hitbox {
    pub shape: CollisionShape,
    pub col_type: ColliderType,
}

/// An active shape: it is tested against every hitbox.
#[derive(Clone, Copy, Debug, PartialEq, Eq, Structural)]
pub struct Hurtbox {
    pub shape: CollisionShape,
    pub col_type: ColliderType,
}

/// The face of the box that was hit.
#[derive(Clone, Copy, Debug, PartialEq, Eq, Structural)]
pub enum Collision {
    Left,
    Right,
    Top,
    Bottom,
}

/// What met what, with the ground's placement at the time of the test.
#[derive(Clone, Copy, Debug, PartialEq, Eq, Structural)]
pub enum CollisionType {
    PlayerHitsGround { ground_pos: Vec2, ground_size: Vec2 },
    PlayerRayHitsGround { ground_pos: Vec2, ground_size: Vec2 },
}

/// One detected collision, as seen from the hurtbox.
#[derive(Clone, Copy, Debug, PartialEq, Eq, Structural)]
pub struct CollisionData {
    pub entity: Entity,
    pub direction: Collision,
    pub collision_type: CollisionType,
}

/// The collisions that one body's hurtbox met during the current tick, in the
/// order in which they were found.
#[derive(Debug)]
pub struct Collisions(pub Vec<CollisionData>);

impl View for Collisions {
    type V = Seq<CollisionData>;

    open spec fn view(&self) -> Seq<CollisionData> {
        self.0@
    }
}

impl Collisions {
    pub fn new() -> (c: Collisions)
        ensures
            c@ == Seq::<CollisionData>::empty(),
    {
        Collisions(Vec::new())
    }

    /// A buffer with the same entries.
    pub fn duplicate(&self) -> (copy: Collisions)
        ensures
            copy@ == self@,
    {
        let mut entries: Vec<CollisionData> = Vec::new();
        let mut i: usize = 0;
        while i < self.0.len()
            invariant
                i <= self.0.len(),
                entries@ == self@.take(i as int),
            decreases self.0.len() - i,
        {
            entries.push(self.0[i]);
            assert(self@.take(i + 1) =~= self@.take(i as int).push(self@[i as int]));
            i = i + 1;
        }
        assert(self@.take(self@.len() as int) =~= self@);
        Collisions(entries)
    }
}

} // verus!
