//! The event vocabulary of the simulation. Request events arrive from the
//! transport layer and carry the acting player's identity; internal events
//! are produced by the processor itself, including the self-rescheduling
//! `Move` and `Build` continuations that drive multi-tick processes.

use vstd::prelude::*;

use crate::geom::{in_world, DAMAGE_MAX, PROGRESS_MAX, SPEED_MAX, WORLD_MAX};
use crate::object::{ObjectType, WeaponType};

verus! {

/// A command to start moving an entity, on behalf of `owner`.
pub struct NetworkMoveEvent {
    pub name: String,
    pub owner: String,
    pub dest_x: i64,
    pub dest_y: i64,
}

/// A command to fire an entity's weapon at a point, on behalf of `owner`.
pub struct NetworkFireEvent {
    pub name: String,
    pub owner: String,
    pub dest_x: i64,
    pub dest_y: i64,
}

/// A command to let entity `name` construct a new entity `b_name` of kind
/// `b_type`, on behalf of `owner`.
pub struct NetworkBuildEvent {
    pub name: String,
    pub owner: String,
    pub b_type: ObjectType,
    pub b_name: String,
}

/// The movement continuation: one step of entity `name` per tick.
pub struct MoveEvent {
    pub name: String,
    pub dest_x: i64,
    pub dest_y: i64,
}

/// Removal of the named entity from the store.
pub struct DestroyEvent {
    pub name: String,
}

/// An area hit at `(x, y)`: every entity within `size` takes `damage`
/// scaled by the armor multiplier table for weapon kind `d_type`.
pub struct DamageEvent {
    pub x: i64,
    pub y: i64,
    pub size: i64,
    pub d_type: WeaponType,
    pub damage: i64,
}

/// The construction continuation: `progress` grows by `speed * elapsed`
/// per tick until it reaches `max_progress`, at which point builder `name`
/// creates the new entity `b_name` of kind `b_type`.
pub struct BuildEvent {
    pub name: String,
    pub b_name: String,
    pub b_type: ObjectType,
    pub speed: i64,
    pub progress: i64,
    pub max_progress: i64,
}

/// One unit of simulated change or command; the queue owns it until it is
/// dequeued, strictly one per tick.
pub enum Event {
    MoveRequest(NetworkMoveEvent),
    FireRequest(NetworkFireEvent),
    BuildRequest(NetworkBuildEvent),
    Move(MoveEvent),
    Destroy(DestroyEvent),
    Damage(DamageEvent),
    Build(BuildEvent),
}

impl DamageEvent {
    /// A damage payload the processor accepts: centre inside the world and
    /// radius and amount inside the engine's numeric limits. A malformed
    /// payload is dropped without effect.
    pub open spec fn valid(self, w: int, h: int) -> bool {
        &&& in_world(self.x as int, self.y as int, w, h)
        &&& 0 <= self.size <= WORLD_MAX
        &&& 0 <= self.damage <= DAMAGE_MAX
    }
}

impl BuildEvent {
    /// A build payload the processor accepts: progress non-negative and
    /// target and speed inside the engine's numeric limits. A malformed
    /// payload is dropped without effect.
    pub open spec fn valid(self) -> bool {
        &&& 0 <= self.progress
        &&& 0 < self.max_progress <= PROGRESS_MAX
        &&& 0 <= self.speed <= SPEED_MAX
    }
}

} // verus!
