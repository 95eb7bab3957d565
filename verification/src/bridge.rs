//! The binding layer and the position synchronizer: the two systems that
//! carry data across the boundary between the entity store and the physics
//! world, in the fixed per-frame order Bind, then Step, then Sync.

use vstd::prelude::*;

use crate::coords::Position;
use crate::coords::from_simulation_space;
use crate::coords::game_x;
use crate::coords::game_y;
use crate::coords::sim_x;
use crate::coords::sim_y;
use crate::coords::to_simulation_space;
use crate::physics::PhysicsWorld;
use crate::physics::body_at;
use crate::physics::body_live;
use crate::physics::collider_at;
use crate::physics::collider_live;
use crate::world::EntityRec;
use crate::world::GameWorld;
use crate::world::linked;
use crate::world::rec_wf;
use crate::world::world_wf;

verus! {

/// How one entity comes out of the binding phase, relative to the physics
/// world as it stands after the whole phase: descriptors are gone; a pending
/// body descriptor became a live body of the same kind placed at the
/// translated position; a pending collider descriptor became a live collider
/// with the entity's geometry, attached to the entity's new body when one was
/// built in the same pass; everything else is untouched.
pub open spec fn bind_rel(e0: EntityRec, e1: EntityRec, p1: PhysicsWorld) -> bool {
    &&& e1.position == e0.position
    &&& e1.shape == e0.shape
    &&& e1.position_dirty == e0.position_dirty
    &&& e1.player == e0.player
    &&& e1.is_star == e0.is_star
    &&& e1.is_platform == e0.is_platform
    &&& e1.body_desc is None
    &&& e1.collider_desc is None
    &&& (e0.body_desc is Some ==> {
        &&& e1.body_handle is Some
        &&& body_live(p1, e1.body_handle->Some_0 as int)
        &&& body_at(p1, e1.body_handle->Some_0 as int).kind == e0.body_desc->Some_0.kind
        &&& body_at(p1, e1.body_handle->Some_0 as int).translation.x == sim_x(
            e0.position->Some_0.value,
            e0.shape->Some_0,
        )
        &&& body_at(p1, e1.body_handle->Some_0 as int).translation.y == sim_y(
            e0.position->Some_0.value,
            e0.shape->Some_0,
        )
    })
    &&& (e0.body_desc is None ==> e1.body_handle == e0.body_handle)
    &&& (e0.collider_desc is Some ==> {
        &&& e1.collider_handle is Some
        &&& collider_live(p1, e1.collider_handle->Some_0 as int)
        &&& collider_at(p1, e1.collider_handle->Some_0 as int).sensor
            == e0.collider_desc->Some_0.sensor
        &&& collider_at(p1, e1.collider_handle->Some_0 as int).friction_milli
            == e0.collider_desc->Some_0.friction_milli
        &&& collider_at(p1, e1.collider_handle->Some_0 as int).restitution_milli
            == e0.collider_desc->Some_0.restitution_milli
        &&& collider_at(p1, e1.collider_handle->Some_0 as int).shape == e0.shape->Some_0
        &&& collider_at(p1, e1.collider_handle->Some_0 as int).translation.x == sim_x(
            e0.position->Some_0.value,
            e0.shape->Some_0,
        )
        &&& collider_at(p1, e1.collider_handle->Some_0 as int).translation.y == sim_y(
            e0.position->Some_0.value,
            e0.shape->Some_0,
        )
        &&& collider_at(p1, e1.collider_handle->Some_0 as int).parent == (if e0.body_desc
            is Some {
            e1.body_handle
        } else {
            None::<usize>
        })
    })
    &&& (e0.collider_desc is None ==> e1.collider_handle == e0.collider_handle)
}

/// The binding phase: materialize every pending descriptor into the physics
/// world exactly once, attaching the returned handles. After it runs, no
/// descriptor is left pending, so an entity spawned this frame is a physical
/// actor before the same frame's step. Objects that already existed are not
/// touched.
pub fn bind_phase(g: &mut GameWorld, p: &mut PhysicsWorld)
    requires
        world_wf(*old(g)),
        old(p).wf(),
        old(p).vals_ok(),
        linked(*old(g), *old(p)),
    ensures
        world_wf(*final(g)),
        final(p).wf(),
        final(p).vals_ok(),
        linked(*final(g), *final(p)),
        final(g).entities@.len() == old(g).entities@.len(),
        forall|i: int|
            0 <= i < old(g).entities@.len() ==> bind_rel(
                old(g).entities@[i],
                #[trigger] final(g).entities@[i],
                *final(p),
            ),
        forall|h: int|
            0 <= h < old(p).bodies@.len() ==> final(p).bodies@[h] == old(p).bodies@[h],
        forall|h: int|
            0 <= h < old(p).colliders@.len() ==> final(p).colliders@[h] == old(p).colliders@[h],
        final(p).bodies@.len() >= old(p).bodies@.len(),
        final(p).colliders@.len() >= old(p).colliders@.len(),
        final(p).intersections@ == old(p).intersections@,
        final(p).contacts@ == old(p).contacts@,
{
    let n = g.entities.len();
    let mut i: usize = 0;
    while i < n
        invariant
            n == g.entities@.len(),
            g.entities@.len() == old(g).entities@.len(),
            i <= n,
            world_wf(*g),
            p.wf(),
            p.vals_ok(),
            linked(*g, *p),
            forall|j: int|
                0 <= j < i ==> bind_rel(old(g).entities@[j], #[trigger] g.entities@[j], *p),
            forall|j: int| i <= j < n ==> g.entities@[j] == old(g).entities@[j],
            forall|h: int| 0 <= h < old(p).bodies@.len() ==> p.bodies@[h] == old(p).bodies@[h],
            forall|h: int|
                0 <= h < old(p).colliders@.len() ==> p.colliders@[h] == old(p).colliders@[h],
            p.bodies@.len() >= old(p).bodies@.len(),
            p.colliders@.len() >= old(p).colliders@.len(),
            p.intersections@ == old(p).intersections@,
            p.contacts@ == old(p).contacts@,
        decreases n - i,
    {
        let ghost p_pre = *p;
        let ghost g_pre = *g;
        let e = g.entities[i];
        if e.body_desc.is_some() || e.collider_desc.is_some() {
            let pos = match e.position {
                Some(q) => q,
                None => Position { value: crate::coords::Vec2 { x: 0, y: 0 } },
            };
            let shape = match e.shape {
                Some(s) => s,
                None => crate::coords::Shape::Ball { r: 0 },
            };
            let t = to_simulation_space(&pos, &shape);
            let mut e1 = e;
            match e.body_desc {
                Some(bd) => {
                    let bh = p.insert_body(bd.kind, t);
                    e1.body_handle = Some(bh);
                    e1.body_desc = None;
                    match e.collider_desc {
                        Some(cd) => {
                            let ch = p.insert_collider(
                                shape,
                                cd.sensor,
                                cd.friction_milli,
                                cd.restitution_milli,
                                t,
                                Some(bh),
                            );
                            e1.collider_handle = Some(ch);
                            e1.collider_desc = None;
                        },
                        None => {},
                    }
                },
                None => {
                    match e.collider_desc {
                        Some(cd) => {
                            let ch = p.insert_collider(
                                shape,
                                cd.sensor,
                                cd.friction_milli,
                                cd.restitution_milli,
                                t,
                                None,
                            );
                            e1.collider_handle = Some(ch);
                            e1.collider_desc = None;
                        },
                        None => {},
                    }
                },
            }
            g.entities.set(i, e1);
            proof {
                assert(forall|h: int|
                    0 <= h < p_pre.colliders@.len() ==> p.colliders@[h] == p_pre.colliders@[h]);
                assert(forall|h: int|
                    0 <= h < p_pre.bodies@.len() ==> p.bodies@[h] == p_pre.bodies@[h]);
                assert(bind_rel(g_pre.entities@[i as int], g.entities@[i as int], *p));
                assert(forall|j: int|
                    0 <= j < i ==> bind_rel(
                        old(g).entities@[j],
                        #[trigger] g.entities@[j],
                        *p,
                    )) by {
                    assert(forall|j: int|
                        0 <= j < i && bind_rel(old(g).entities@[j], #[trigger] g.entities@[j], p_pre)
                            ==> bind_rel(old(g).entities@[j], g.entities@[j], *p));
                }
            }
        }
        i += 1;
    }
}

/// How one entity comes out of the synchronization phase, relative to the
/// physics world before (`p0`) and after (`p1`) the phase. The direction is
/// last-writer-wins: a position written by gameplay since the last run is
/// pushed into the body's transform and kept; otherwise the body's transform
/// is pulled back through the inverse translation. At most one direction is
/// applied, never both.
pub open spec fn sync_rel(e0: EntityRec, e1: EntityRec, p0: PhysicsWorld, p1: PhysicsWorld) -> bool {
    &&& e1.shape == e0.shape
    &&& e1.body_desc == e0.body_desc
    &&& e1.collider_desc == e0.collider_desc
    &&& e1.body_handle == e0.body_handle
    &&& e1.collider_handle == e0.collider_handle
    &&& e1.player == e0.player
    &&& e1.is_star == e0.is_star
    &&& e1.is_platform == e0.is_platform
    &&& (e0.body_handle is None ==> e1.position == e0.position && e1.position_dirty
        == e0.position_dirty)
    &&& (e0.body_handle is Some && e0.position_dirty ==> {
        let h = e0.body_handle->Some_0 as int;
        &&& e1.position == e0.position
        &&& !e1.position_dirty
        &&& body_at(p1, h).translation.x == sim_x(e0.position->Some_0.value, e0.shape->Some_0)
        &&& body_at(p1, h).translation.y == sim_y(e0.position->Some_0.value, e0.shape->Some_0)
        &&& body_at(p1, h).kind == body_at(p0, h).kind
        &&& body_at(p1, h).linvel == body_at(p0, h).linvel
    })
    &&& (e0.body_handle is Some && !e0.position_dirty ==> {
        let h = e0.body_handle->Some_0 as int;
        &&& !e1.position_dirty
        &&& e1.position is Some
        &&& e1.position->Some_0.value.x == game_x(body_at(p0, h).translation, e0.shape->Some_0)
        &&& e1.position->Some_0.value.y == game_y(body_at(p0, h).translation, e0.shape->Some_0)
        &&& p1.bodies@[h] == p0.bodies@[h]
    })
}

/// Some entity among the first `k` holds body handle `h` with a dirty
/// position, i.e. the synchronizer will push into that body.
pub open spec fn pushes_to(es: Seq<EntityRec>, k: int, h: int) -> bool {
    exists|j: int|
        0 <= j < k && (#[trigger] es[j]).body_handle == Some(h as usize) && es[j].position_dirty
}

/// The synchronization phase: reconcile each handle-bearing entity's gameplay
/// position with its body's simulation transform, in the direction the dirty
/// flag dictates. Bodies no entity pushes to are untouched, as is everything
/// that is not a body.
pub fn sync_phase(g: &mut GameWorld, p: &mut PhysicsWorld)
    requires
        world_wf(*old(g)),
        old(p).wf(),
        old(p).vals_ok(),
        linked(*old(g), *old(p)),
    ensures
        world_wf(*final(g)),
        final(p).wf(),
        final(p).vals_ok(),
        linked(*final(g), *final(p)),
        final(g).entities@.len() == old(g).entities@.len(),
        forall|i: int|
            0 <= i < old(g).entities@.len() ==> sync_rel(
                old(g).entities@[i],
                #[trigger] final(g).entities@[i],
                *old(p),
                *final(p),
            ),
        final(p).bodies@.len() == old(p).bodies@.len(),
        forall|h: int|
            0 <= h < old(p).bodies@.len() && !pushes_to(
                old(g).entities@,
                old(g).entities@.len() as int,
                h,
            ) ==> final(p).bodies@[h] == old(p).bodies@[h],
        forall|h: int| body_live(*final(p), h) <==> body_live(*old(p), h),
        final(p).colliders@ == old(p).colliders@,
        final(p).intersections@ == old(p).intersections@,
        final(p).contacts@ == old(p).contacts@,
{
    let n = g.entities.len();
    let mut i: usize = 0;
    while i < n
        invariant
            n == g.entities@.len(),
            g.entities@.len() == old(g).entities@.len(),
            i <= n,
            world_wf(*g),
            p.wf(),
            p.vals_ok(),
            linked(*g, *p),
            forall|j: int|
                0 <= j < i ==> sync_rel(
                    old(g).entities@[j],
                    #[trigger] g.entities@[j],
                    *old(p),
                    *p,
                ),
            forall|j: int| i <= j < n ==> g.entities@[j] == old(g).entities@[j],
            p.bodies@.len() == old(p).bodies@.len(),
            forall|h: int|
                0 <= h < old(p).bodies@.len() && !pushes_to(old(g).entities@, i as int, h)
                    ==> p.bodies@[h] == old(p).bodies@[h],
            forall|h: int| body_live(*p, h) <==> body_live(*old(p), h),
            p.colliders@ == old(p).colliders@,
            p.intersections@ == old(p).intersections@,
            p.contacts@ == old(p).contacts@,
        decreases n - i,
    {
        let ghost p_pre = *p;
        let ghost g_pre = *g;
        let e = g.entities[i];
        match e.body_handle {
            Some(h) => {
                let shape = match e.shape {
                    Some(s) => s,
                    None => crate::coords::Shape::Ball { r: 0 },
                };
                if e.position_dirty {
                    let pos = match e.position {
                        Some(q) => q,
                        None => Position { value: crate::coords::Vec2 { x: 0, y: 0 } },
                    };
                    let t = to_simulation_space(&pos, &shape);
                    p.set_body_translation(h, t);
                    let mut e1 = e;
                    e1.position_dirty = false;
                    g.entities.set(i, e1);
                } else {
                    let t = p.body_translation(h);
                    let pos = from_simulation_space(&t, &shape);
                    let mut e1 = e;
                    e1.position = Some(pos);
                    g.entities.set(i, e1);
                }
                proof {
                    assert(!pushes_to(old(g).entities@, i as int, h as int)) by {
                        if pushes_to(old(g).entities@, i as int, h as int) {
                            let j = choose|j: int|
                                0 <= j < i && (#[trigger] old(g).entities@[j]).body_handle == Some(
                                    h,
                                ) && old(g).entities@[j].position_dirty;
                            assert(sync_rel(
                                old(g).entities@[j],
                                g_pre.entities@[j],
                                *old(p),
                                p_pre,
                            ));
                            assert(g_pre.entities@[j].body_handle == Some(h));
                            assert(g_pre.entities@[i as int].body_handle == Some(h));
                            assert(false);
                        }
                    }
                    assert(p_pre.bodies@[h as int] == old(p).bodies@[h as int]);
                    assert(sync_rel(
                        g_pre.entities@[i as int],
                        g.entities@[i as int],
                        *old(p),
                        *p,
                    ));
                    assert forall|j: int| 0 <= j < i implies sync_rel(
                        old(g).entities@[j],
                        #[trigger] g.entities@[j],
                        *old(p),
                        *p,
                    ) by {
                        assert(sync_rel(old(g).entities@[j], g_pre.entities@[j], *old(p), p_pre));
                        assert(g.entities@[j] == g_pre.entities@[j]);
                        match g_pre.entities@[j].body_handle {
                            Some(hj) => {
                                assert(g_pre.entities@[i as int].body_handle == Some(h));
                                assert(hj != h);
                                assert(p.bodies@[hj as int] == p_pre.bodies@[hj as int]);
                            },
                            None => {},
                        }
                    }
                }
            },
            None => {},
        }
        i += 1;
    }
}

/// Last-writer-wins law: over one synchronization of a handle-bearing entity,
/// exactly one side is written — the simulation transform when gameplay wrote
/// the position this tick, the gameplay position otherwise — and afterwards
/// the position equals the inverse translation of the body's transform either
/// way.
pub proof fn lemma_last_writer_wins(
    e0: EntityRec,
    e1: EntityRec,
    p0: PhysicsWorld,
    p1: PhysicsWorld,
)
    requires
        rec_wf(e0),
        sync_rel(e0, e1, p0, p1),
        e0.body_handle is Some,
    ensures
        e0.position_dirty ==> e1.position == e0.position,
        !e0.position_dirty ==> p1.bodies@[e0.body_handle->Some_0 as int]
            == p0.bodies@[e0.body_handle->Some_0 as int],
        e1.position is Some,
        e1.position->Some_0.value.x == game_x(
            body_at(p1, e0.body_handle->Some_0 as int).translation,
            e0.shape->Some_0,
        ),
        e1.position->Some_0.value.y == game_y(
            body_at(p1, e0.body_handle->Some_0 as int).translation,
            e0.shape->Some_0,
        ),
{
}

/// Push-then-read-back law: when gameplay writes a position, one
/// synchronization pushes it into the body's transform, and the next
/// synchronization — absent a further external write and with the body's
/// transform untouched in between — pulls back exactly the written position.
pub proof fn lemma_push_then_pull(
    e0: EntityRec,
    e1: EntityRec,
    e2: EntityRec,
    p0: PhysicsWorld,
    p1: PhysicsWorld,
    p2a: PhysicsWorld,
    p2b: PhysicsWorld,
)
    requires
        rec_wf(e0),
        e0.body_handle is Some,
        e0.position_dirty,
        sync_rel(e0, e1, p0, p1),
        p2a.bodies@[e0.body_handle->Some_0 as int] == p1.bodies@[e0.body_handle->Some_0 as int],
        sync_rel(e1, e2, p2a, p2b),
    ensures
        e2.position == e0.position,
{
    let h = e0.body_handle->Some_0 as int;
    assert(!e1.position_dirty);
    assert(body_at(p2a, h) == body_at(p1, h));
    assert(e2.position->Some_0.value.x == game_x(body_at(p1, h).translation, e0.shape->Some_0));
    assert(e2.position->Some_0.value == e0.position->Some_0.value);
}

} // verus!
