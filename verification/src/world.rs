//! The entity store and its binding invariants.
//!
//! An entity is a record of optional components: a gameplay position, a
//! collision shape, transient body and collider descriptors, and the resolved
//! handles that replace the descriptors once the binding layer has
//! materialized them into the physics world. A descriptor is consumed exactly
//! once; an entity never carries a descriptor and the matching handle at the
//! same time.

use vstd::prelude::*;

use crate::coords::Position;
use crate::coords::Shape;
use crate::coords::pos_sim_ok;
use crate::physics::BodyKind;
use crate::physics::PhysicsWorld;
use crate::physics::body_live;
use crate::physics::collider_at;
use crate::physics::collider_live;

verus! {

/// Velocities are kept within this bound so that the product of an input
/// axis and a speed always fits the velocity channel.
pub const VEL_LIMIT: i64 = 0x1000_0000;

/// A transient specification of a rigid body to be created.
#[derive(Clone, Copy, PartialEq, Eq, Structural, Debug)]
pub struct BodyDesc {
    pub kind: BodyKind,
}

/// A transient specification of a collider to be created: sensor flag and
/// surface coefficients in thousandths; the geometry is the entity's shape.
#[derive(Clone, Copy, PartialEq, Eq, Structural, Debug)]
pub struct ColliderDesc {
    pub sensor: bool,
    pub friction_milli: u32,
    pub restitution_milli: u32,
}

/// Player-specific gameplay state: movement speed and jump impulse in
/// thousandths of a meter per second, and the grounded flag.
#[derive(Clone, Copy, PartialEq, Eq, Structural, Debug)]
pub struct PlayerData {
    pub speed: i64,
    pub jump: i64,
    pub is_grounded: bool,
}

/// One entity's components.
#[derive(Clone, Copy, Debug)]
pub struct EntityRec {
    pub position: Option<Position>,
    pub shape: Option<Shape>,
    pub body_desc: Option<BodyDesc>,
    pub collider_desc: Option<ColliderDesc>,
    pub body_handle: Option<usize>,
    pub collider_handle: Option<usize>,
    /// Set when a gameplay system wrote the position since the synchronizer
    /// last ran; decides the direction of the next synchronization.
    pub position_dirty: bool,
    pub player: Option<PlayerData>,
    pub is_star: bool,
    pub is_platform: bool,
}

/// The entity store.
pub struct GameWorld {
    pub entities: Vec<EntityRec>,
}

pub open spec fn player_wf(p: PlayerData) -> bool {
    0 <= p.speed <= VEL_LIMIT && 0 <= p.jump <= VEL_LIMIT
}

/// Per-entity well-formedness: anything that will be, or is, mirrored in the
/// simulation carries a position and a shape whose translated image stays in
/// bounds, a descriptor is never held together with its resolved handle, and
/// player data is bounded.
pub open spec fn rec_wf(e: EntityRec) -> bool {
    &&& (e.body_desc is Some || e.collider_desc is Some || e.body_handle is Some
        || e.collider_handle is Some) ==> (e.position is Some && e.shape is Some && pos_sim_ok(
        e.position->Some_0.value,
        e.shape->Some_0,
    ))
    &&& e.body_desc is Some ==> e.body_handle is None && e.collider_handle is None
    &&& e.collider_desc is Some ==> e.collider_handle is None && e.body_handle is None
    &&& e.player is Some ==> player_wf(e.player->Some_0)
}

pub open spec fn world_wf(g: GameWorld) -> bool {
    forall|i: int| 0 <= i < g.entities@.len() ==> rec_wf(#[trigger] g.entities@[i])
}

/// Every handle held by an entity resolves to a live object, and no two
/// entities hold the same handle: the store and the simulation agree on who
/// owns what.
pub open spec fn linked(g: GameWorld, p: PhysicsWorld) -> bool {
    &&& forall|i: int|
        0 <= i < g.entities@.len() && (#[trigger] g.entities@[i]).body_handle is Some
            ==> body_live(p, g.entities@[i].body_handle->Some_0 as int)
    &&& forall|i: int|
        0 <= i < g.entities@.len() && (#[trigger] g.entities@[i]).collider_handle is Some
            ==> collider_live(p, g.entities@[i].collider_handle->Some_0 as int)
    &&& forall|i: int, j: int|
        0 <= i < g.entities@.len() && 0 <= j < g.entities@.len() && i != j && (
        #[trigger] g.entities@[i]).body_handle is Some && (
        #[trigger] g.entities@[j]).body_handle is Some ==> g.entities@[i].body_handle->Some_0
            != g.entities@[j].body_handle->Some_0
    &&& forall|i: int, j: int|
        0 <= i < g.entities@.len() && 0 <= j < g.entities@.len() && i != j && (
        #[trigger] g.entities@[i]).collider_handle is Some && (
        #[trigger] g.entities@[j]).collider_handle is Some
            ==> g.entities@[i].collider_handle->Some_0 != g.entities@[j].collider_handle->Some_0
    &&& forall|i: int|
        0 <= i < g.entities@.len() && (#[trigger] g.entities@[i]).collider_handle is Some
            ==> collider_at(p, g.entities@[i].collider_handle->Some_0 as int).parent
            == g.entities@[i].body_handle
}

impl GameWorld {
    pub fn new() -> (g: GameWorld)
        ensures
            g.entities@.len() == 0,
            world_wf(g),
    {
        GameWorld { entities: Vec::new() }
    }

    /// Spawn an entity carrying the given components; descriptors start
    /// pending and no handle is attached yet.
    pub fn spawn(&mut self, e: EntityRec) -> (idx: usize)
        requires
            rec_wf(e),
            e.body_handle is None,
            e.collider_handle is None,
        ensures
            idx == old(self).entities@.len(),
            final(self).entities@.len() == old(self).entities@.len() + 1,
            final(self).entities@[idx as int] == e,
            forall|i: int| 0 <= i < idx ==> final(self).entities@[i] == old(self).entities@[i],
            world_wf(*old(self)) ==> world_wf(*final(self)),
    {
        let idx = self.entities.len();
        self.entities.push(e);
        idx
    }

    /// Mark a gameplay write of an entity's position: the value is recorded
    /// and the dirty flag makes the next synchronization push it into the
    /// simulation rather than pull the simulation's transform out.
    pub fn set_position(&mut self, i: usize, pos: Position)
        requires
            world_wf(*old(self)),
            i < old(self).entities@.len(),
            old(self).entities@[i as int].shape is Some ==> pos_sim_ok(
                pos.value,
                old(self).entities@[i as int].shape->Some_0,
            ),
        ensures
            world_wf(*final(self)),
            final(self).entities@.len() == old(self).entities@.len(),
            final(self).entities@[i as int] == (EntityRec {
                position: Some(pos),
                position_dirty: true,
                ..old(self).entities@[i as int]
            }),
            forall|j: int|
                0 <= j < final(self).entities@.len() && j != i ==> final(self).entities@[j] == old(
                    self,
                ).entities@[j],
    {
        let mut e = self.entities[i];
        e.position = Some(pos);
        e.position_dirty = true;
        self.entities.set(i, e);
    }
}

} // verus!
