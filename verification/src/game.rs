//! Gameplay rules around the bridge: level geometry production, player
//! movement decisions, grounded detection, goal detection and the level
//! transition that despawns everything and advances the level id.
//!
//! All distances are gameplay units (half-pixels); screen dimensions are
//! passed in by the caller, already converted to units.

use vstd::prelude::*;

use crate::coords::Extent;
use crate::coords::Position;
use crate::coords::Shape;
use crate::coords::Vec2;
use crate::coords::pos_sim_ok;
use crate::coords::sim_x;
use crate::physics::BodyKind;
use crate::physics::PhysicsWorld;
use crate::physics::body_at;
use crate::physics::body_live;
use crate::physics::collider_live;
use crate::physics::spec_in_contact;
use crate::physics::spec_active_contact;
use crate::physics::spec_intersecting;
use crate::world::BodyDesc;
use crate::world::ColliderDesc;
use crate::world::EntityRec;
use crate::world::GameWorld;
use crate::world::PlayerData;
use crate::world::linked;
use crate::world::rec_wf;
use crate::world::world_wf;

verus! {

/// Largest screen dimension (in units) the level producer accepts; keeps the
/// level-two arithmetic inside `u32`.
pub const SCREEN_LIMIT: u32 = 2_000_000_000;

/// An axis-aligned rectangle in gameplay units, anchored at its top-left.
#[derive(Clone, Copy, PartialEq, Eq, Structural, Debug)]
pub struct Rect {
    pub x: i64,
    pub y: i64,
    pub w: u32,
    pub h: u32,
}

/// The current level: its index and its scrollable length in units.
#[derive(Clone, Copy, PartialEq, Eq, Structural, Debug)]
pub struct Level {
    pub id: usize,
    pub length: i64,
}

/// A pending collider specification together with its geometry, as attached
/// to a freshly spawned entity. Surface coefficients default to the
/// simulation engine's: friction one half, no restitution, not a sensor.
#[derive(Clone, Copy, PartialEq, Eq, Structural, Debug)]
pub struct ColliderBuilder {
    pub collider: ColliderDesc,
    pub shape: Shape,
}

impl ColliderBuilder {
    pub fn ball(r: u32) -> (b: ColliderBuilder)
        ensures
            b.shape == (Shape::Ball { r }),
            b.collider == (ColliderDesc { sensor: false, friction_milli: 500, restitution_milli: 0 }),
    {
        ColliderBuilder {
            collider: ColliderDesc { sensor: false, friction_milli: 500, restitution_milli: 0 },
            shape: Shape::Ball { r },
        }
    }

    pub fn cuboid(size: Extent) -> (b: ColliderBuilder)
        ensures
            b.shape == (Shape::Cuboid { size }),
            b.collider == (ColliderDesc { sensor: false, friction_milli: 500, restitution_milli: 0 }),
    {
        ColliderBuilder {
            collider: ColliderDesc { sensor: false, friction_milli: 500, restitution_milli: 0 },
            shape: Shape::Cuboid { size },
        }
    }

    pub fn with_as_sensor(self) -> (b: ColliderBuilder)
        ensures
            b == (ColliderBuilder {
                collider: ColliderDesc { sensor: true, ..self.collider },
                ..self
            }),
    {
        ColliderBuilder { collider: ColliderDesc { sensor: true, ..self.collider }, ..self }
    }

    pub fn with_friction(self, milli: u32) -> (b: ColliderBuilder)
        ensures
            b == (ColliderBuilder {
                collider: ColliderDesc { friction_milli: milli, ..self.collider },
                ..self
            }),
    {
        ColliderBuilder {
            collider: ColliderDesc { friction_milli: milli, ..self.collider },
            ..self
        }
    }

    pub fn with_restitution(self, milli: u32) -> (b: ColliderBuilder)
        ensures
            b == (ColliderBuilder {
                collider: ColliderDesc { restitution_milli: milli, ..self.collider },
                ..self
            }),
    {
        ColliderBuilder {
            collider: ColliderDesc { restitution_milli: milli, ..self.collider },
            ..self
        }
    }
}

/// A pending rigid-body specification.
#[derive(Clone, Copy, PartialEq, Eq, Structural, Debug)]
pub struct RigidBodyBuilder {
    pub body: BodyDesc,
}

impl RigidBodyBuilder {
    pub fn fixed() -> (b: RigidBodyBuilder)
        ensures
            b.body.kind == BodyKind::Fixed,
    {
        RigidBodyBuilder { body: BodyDesc { kind: BodyKind::Fixed } }
    }

    pub fn dynamic() -> (b: RigidBodyBuilder)
        ensures
            b.body.kind == BodyKind::Dynamic,
    {
        RigidBodyBuilder { body: BodyDesc { kind: BodyKind::Dynamic } }
    }
}

/// The entity record of a static platform covering `rect`: a fixed body and a
/// frictionless, non-bouncy cuboid collider, pending binding.
pub open spec fn platform_rec(rect: Rect) -> EntityRec {
    EntityRec {
        position: Some(Position { value: Vec2 { x: rect.x, y: rect.y } }),
        shape: Some(Shape::Cuboid { size: Extent { x: rect.w, y: rect.h } }),
        body_desc: Some(BodyDesc { kind: BodyKind::Fixed }),
        collider_desc: Some(
            ColliderDesc { sensor: false, friction_milli: 0, restitution_milli: 0 },
        ),
        body_handle: None,
        collider_handle: None,
        position_dirty: true,
        player: None,
        is_star: false,
        is_platform: true,
    }
}

/// The entity record of a goal star at `pos`: a fixed body with a sensor ball
/// collider of radius 35 units (17.5 pixels), pending binding.
pub open spec fn star_rec(pos: Vec2) -> EntityRec {
    EntityRec {
        position: Some(Position { value: pos }),
        shape: Some(Shape::Ball { r: 35 }),
        body_desc: Some(BodyDesc { kind: BodyKind::Fixed }),
        collider_desc: Some(
            ColliderDesc { sensor: true, friction_milli: 500, restitution_milli: 0 },
        ),
        body_handle: None,
        collider_handle: None,
        position_dirty: true,
        player: None,
        is_star: true,
        is_platform: false,
    }
}

/// The player's entity record: spawned at (100, 64) units — pixel (50, 32) —
/// with a dynamic body, a frictionless 64x64-unit cuboid collider, speed 2
/// and jump impulse 5 meters per second (in thousandths).
pub open spec fn player_rec() -> EntityRec {
    EntityRec {
        position: Some(Position { value: Vec2 { x: 100, y: 64 } }),
        shape: Some(Shape::Cuboid { size: Extent { x: 64, y: 64 } }),
        body_desc: Some(BodyDesc { kind: BodyKind::Dynamic }),
        collider_desc: Some(
            ColliderDesc { sensor: false, friction_milli: 0, restitution_milli: 0 },
        ),
        body_handle: None,
        collider_handle: None,
        position_dirty: true,
        player: Some(PlayerData { speed: 2000, jump: 5000, is_grounded: false }),
        is_star: false,
        is_platform: false,
    }
}

/// The geometry of level one on a `sw` by `sh` unit screen: four boundary
/// platforms, one ledge near the bottom right, and the goal star above the
/// ledge.
pub open spec fn level_one_recs(sw: u32, sh: u32) -> Seq<EntityRec> {
    seq![
        platform_rec(Rect { x: 0, y: (sh - 64) as i64, w: sw, h: 64 }),
        platform_rec(Rect { x: 0, y: 0, w: 64, h: sh }),
        platform_rec(Rect { x: 0, y: 0, w: sw, h: 64 }),
        platform_rec(Rect { x: (sw - 64) as i64, y: 0, w: 64, h: sh }),
        platform_rec(Rect { x: (sw - 464) as i64, y: (sh - 128) as i64, w: 400, h: 64 }),
        star_rec(Vec2 { x: (sw - 128) as i64, y: (sh - 192) as i64 }),
    ]
}

/// The geometry of level two, half again as wide as the screen: four boundary
/// platforms, three stepping ledges, and the goal star past the last ledge.
pub open spec fn level_two_recs(sw: u32, sh: u32) -> Seq<EntityRec> {
    let w15 = (sw + sw as int / 2) as u32;
    seq![
        platform_rec(Rect { x: 0, y: (sh - 64) as i64, w: w15, h: 64 }),
        platform_rec(Rect { x: 0, y: 0, w: 64, h: sh }),
        platform_rec(Rect { x: 0, y: 0, w: w15, h: 64 }),
        platform_rec(Rect { x: (w15 - 64) as i64, y: 0, w: 64, h: sh }),
        platform_rec(Rect { x: (w15 as int / 2 - 900) as i64, y: (sh as int / 2 + 300) as i64, w: 400, h: 64 }),
        platform_rec(Rect { x: (w15 as int / 2 - 200) as i64, y: (sh as int / 2 + 200) as i64, w: 400, h: 64 }),
        platform_rec(Rect { x: (w15 as int / 2 + 500) as i64, y: (sh as int / 2 + 100) as i64, w: 400, h: 64 }),
        star_rec(Vec2 { x: (w15 as int / 2 + 700) as i64, y: (sh as int / 2 - 128) as i64 }),
    ]
}

/// The geometry that level `id` produces: defined for levels one and two,
/// empty for any other id.
pub open spec fn level_recs(id: int, sw: u32, sh: u32) -> Seq<EntityRec> {
    if id == 1 {
        level_one_recs(sw, sh)
    } else if id == 2 {
        level_two_recs(sw, sh)
    } else {
        Seq::empty()
    }
}

/// Spawn the player entity.
pub fn setup_player(g: &mut GameWorld)
    requires
        world_wf(*old(g)),
    ensures
        world_wf(*final(g)),
        final(g).entities@ == old(g).entities@.push(player_rec()),
{
    let player = EntityRec {
        position: Some(Position { value: Vec2 { x: 100, y: 64 } }),
        shape: Some(Shape::Cuboid { size: Extent { x: 64, y: 64 } }),
        body_desc: Some(RigidBodyBuilder::dynamic().body),
        collider_desc: Some(
            ColliderBuilder::cuboid(Extent { x: 64, y: 64 })
                .with_friction(0)
                .with_restitution(0)
                .collider,
        ),
        body_handle: None,
        collider_handle: None,
        position_dirty: true,
        player: Some(PlayerData { speed: 2000, jump: 5000, is_grounded: false }),
        is_star: false,
        is_platform: false,
    };
    spawn_rec(g, player);
    proof {
        assert(g.entities@ =~= old(g).entities@.push(player_rec()));
    }
}

/// Spawn one entity record; a thin, contract-carrying wrapper used by the
/// level producer so each spawned record is pinned exactly.
fn spawn_rec(g: &mut GameWorld, e: EntityRec)
    requires
        world_wf(*old(g)),
        rec_wf(e),
        e.body_handle is None,
        e.collider_handle is None,
    ensures
        world_wf(*final(g)),
        final(g).entities@ == old(g).entities@.push(e),
{
    g.spawn(e);
    proof {
        assert(g.entities@ =~= old(g).entities@.push(e));
    }
}

/// Spawn a platform covering `rect`.
pub fn spawn_platform(g: &mut GameWorld, rect: Rect)
    requires
        world_wf(*old(g)),
        pos_sim_ok(Vec2 { x: rect.x, y: rect.y }, Shape::Cuboid { size: Extent { x: rect.w, y: rect.h } }),
    ensures
        world_wf(*final(g)),
        final(g).entities@ == old(g).entities@.push(platform_rec(rect)),
{
    let b = ColliderBuilder::cuboid(Extent { x: rect.w, y: rect.h }).with_friction(0).with_restitution(0);
    let e = EntityRec {
        position: Some(Position { value: Vec2 { x: rect.x, y: rect.y } }),
        shape: Some(b.shape),
        body_desc: Some(RigidBodyBuilder::fixed().body),
        collider_desc: Some(b.collider),
        body_handle: None,
        collider_handle: None,
        position_dirty: true,
        player: None,
        is_star: false,
        is_platform: true,
    };
    spawn_rec(g, e);
}

/// Spawn a goal star at `pos`.
pub fn spawn_star(g: &mut GameWorld, pos: Vec2)
    requires
        world_wf(*old(g)),
        pos_sim_ok(pos, Shape::Ball { r: 35 }),
    ensures
        world_wf(*final(g)),
        final(g).entities@ == old(g).entities@.push(star_rec(pos)),
{
    let b = ColliderBuilder::ball(35).with_as_sensor();
    let e = EntityRec {
        position: Some(Position { value: pos }),
        shape: Some(b.shape),
        body_desc: Some(RigidBodyBuilder::fixed().body),
        collider_desc: Some(b.collider),
        body_handle: None,
        collider_handle: None,
        position_dirty: true,
        player: None,
        is_star: true,
        is_platform: false,
    };
    spawn_rec(g, e);
}

/// Produce the current level's geometry into the store and record the level's
/// scrollable length. A level id with no defined geometry spawns nothing and
/// leaves the length unchanged.
pub fn setup_level(g: &mut GameWorld, level: &mut Level, sw: u32, sh: u32)
    requires
        world_wf(*old(g)),
        64 <= sw <= SCREEN_LIMIT,
        64 <= sh <= SCREEN_LIMIT,
    ensures
        world_wf(*final(g)),
        final(level).id == old(level).id,
        old(level).id == 1 ==> final(g).entities@ == old(g).entities@ + level_one_recs(sw, sh)
            && final(level).length == sw as i64,
        old(level).id == 2 ==> final(g).entities@ == old(g).entities@ + level_two_recs(sw, sh)
            && final(level).length == sw as i64 + sw as i64 / 2,
        old(level).id != 1 && old(level).id != 2 ==> final(g).entities@ == old(g).entities@
            && *final(level) == *old(level),
{
    if level.id == 1 {
        spawn_platform(g, Rect { x: 0, y: sh as i64 - 64, w: sw, h: 64 });
        spawn_platform(g, Rect { x: 0, y: 0, w: 64, h: sh });
        spawn_platform(g, Rect { x: 0, y: 0, w: sw, h: 64 });
        spawn_platform(g, Rect { x: sw as i64 - 64, y: 0, w: 64, h: sh });
        spawn_platform(g, Rect { x: sw as i64 - 464, y: sh as i64 - 128, w: 400, h: 64 });
        spawn_star(g, Vec2 { x: sw as i64 - 128, y: sh as i64 - 192 });
        level.length = sw as i64;
        proof {
            assert(g.entities@ =~= old(g).entities@ + level_one_recs(sw, sh));
        }
    } else if level.id == 2 {
        let w15: u32 = sw + sw / 2;
        spawn_platform(g, Rect { x: 0, y: sh as i64 - 64, w: w15, h: 64 });
        spawn_platform(g, Rect { x: 0, y: 0, w: 64, h: sh });
        spawn_platform(g, Rect { x: 0, y: 0, w: w15, h: 64 });
        spawn_platform(g, Rect { x: w15 as i64 - 64, y: 0, w: 64, h: sh });
        spawn_platform(
            g,
            Rect { x: w15 as i64 / 2 - 900, y: sh as i64 / 2 + 300, w: 400, h: 64 },
        );
        spawn_platform(
            g,
            Rect { x: w15 as i64 / 2 - 200, y: sh as i64 / 2 + 200, w: 400, h: 64 },
        );
        spawn_platform(
            g,
            Rect { x: w15 as i64 / 2 + 500, y: sh as i64 / 2 + 100, w: 400, h: 64 },
        );
        spawn_star(g, Vec2 { x: w15 as i64 / 2 + 700, y: sh as i64 / 2 - 128 });
        level.length = sw as i64 + sw as i64 / 2;
        proof {
            assert(g.entities@ =~= old(g).entities@ + level_two_recs(sw, sh));
        }
    }
}

/// The player's horizontal velocity is the input axis times the player's
/// speed; the vertical velocity is the jump impulse (upward, negative y) when
/// a jump is pressed while grounded, and the body's current vertical velocity
/// otherwise. Velocities are thousandths of a meter per second.
pub fn player_velocity(
    axis: i64,
    jump_pressed: bool,
    player: &PlayerData,
    current_y: i64,
) -> (v: Vec2)
    requires
        -1 <= axis <= 1,
        crate::world::player_wf(*player),
    ensures
        v.x == axis * player.speed,
        v.y == (if jump_pressed && player.is_grounded {
            -player.jump as int
        } else {
            current_y as int
        }),
{
    let vx = if axis == 1 {
        player.speed
    } else if axis == -1 {
        -player.speed
    } else {
        0
    };
    let vy = if jump_pressed && player.is_grounded {
        -player.jump
    } else {
        current_y
    };
    Vec2 { x: vx, y: vy }
}

/// The camera's horizontal scroll: the player's center past half a screen
/// scrolls the camera by the difference, clamped at the level start; once the
/// center comes within half a screen of the level's end the camera no longer
/// follows (the frame is not updated), reported as `None`.
pub fn camera_offset(pos: &Position, shape: &Shape, sw: u32, level_length: i64) -> (r: Option<
    i64,
>)
    requires
        pos_sim_ok(pos.value, *shape),
    ensures
        r is Some <==> sim_x(pos.value, *shape) + sw as int / 2 < level_length,
        r is Some ==> r->Some_0 == (if sim_x(pos.value, *shape) > sw as int / 2 {
            sim_x(pos.value, *shape) - sw as int / 2
        } else {
            0
        }),
{
    let t = crate::coords::to_simulation_space(pos, shape);
    let half: i64 = (sw / 2) as i64;
    if t.x + half < level_length {
        Some(if t.x > half { t.x - half } else { 0 })
    } else {
        None
    }
}


/// Some entity among the first `k` is a player holding body handle `h`.
pub open spec fn player_owns(es: Seq<EntityRec>, k: int, h: int) -> bool {
    exists|j: int|
        0 <= j < k && (#[trigger] es[j]).player is Some && es[j].body_handle == Some(h as usize)
}

/// How a player's body comes out of the movement system: horizontal velocity
/// from the input axis, vertical velocity from the jump edge or kept, and the
/// transform untouched (velocity is the always-simulation-owned channel).
pub open spec fn moved_rel(
    e: EntityRec,
    p0: PhysicsWorld,
    p1: PhysicsWorld,
    axis: int,
    jump_pressed: bool,
) -> bool {
    e.player is Some && e.body_handle is Some ==> {
        let h = e.body_handle->Some_0 as int;
        let pd = e.player->Some_0;
        &&& body_at(p1, h).linvel.x == axis * pd.speed
        &&& body_at(p1, h).linvel.y == (if jump_pressed && pd.is_grounded {
            -pd.jump as int
        } else {
            body_at(p0, h).linvel.y as int
        })
        &&& body_at(p1, h).translation == body_at(p0, h).translation
        &&& body_at(p1, h).kind == body_at(p0, h).kind
    }
}

/// The player movement system: for every player entity with a bound body, set
/// the body's linear velocity from the input. Everything else is untouched.
pub fn move_player(g: &GameWorld, p: &mut PhysicsWorld, axis: i64, jump_pressed: bool)
    requires
        world_wf(*g),
        old(p).wf(),
        old(p).vals_ok(),
        linked(*g, *old(p)),
        -1 <= axis <= 1,
    ensures
        final(p).wf(),
        final(p).vals_ok(),
        linked(*g, *final(p)),
        final(p).bodies@.len() == old(p).bodies@.len(),
        forall|i: int|
            0 <= i < g.entities@.len() ==> moved_rel(
                #[trigger] g.entities@[i],
                *old(p),
                *final(p),
                axis as int,
                jump_pressed,
            ),
        forall|h: int|
            0 <= h < old(p).bodies@.len() && !player_owns(
                g.entities@,
                g.entities@.len() as int,
                h,
            ) ==> final(p).bodies@[h] == old(p).bodies@[h],
        forall|h: int| body_live(*final(p), h) <==> body_live(*old(p), h),
        final(p).colliders@ == old(p).colliders@,
        final(p).intersections@ == old(p).intersections@,
        final(p).contacts@ == old(p).contacts@,
{
    let n = g.entities.len();
    let mut i: usize = 0;
    while i < n
        invariant
            n == g.entities@.len(),
            world_wf(*g),
            p.wf(),
            p.vals_ok(),
            linked(*g, *p),
            i <= n,
            -1 <= axis <= 1,
            p.bodies@.len() == old(p).bodies@.len(),
            forall|j: int|
                0 <= j < i ==> moved_rel(
                    #[trigger] g.entities@[j],
                    *old(p),
                    *p,
                    axis as int,
                    jump_pressed,
                ),
            forall|h: int|
                0 <= h < old(p).bodies@.len() && !player_owns(g.entities@, i as int, h)
                    ==> p.bodies@[h] == old(p).bodies@[h],
            forall|h: int| body_live(*p, h) <==> body_live(*old(p), h),
            p.colliders@ == old(p).colliders@,
            p.intersections@ == old(p).intersections@,
            p.contacts@ == old(p).contacts@,
        decreases n - i,
    {
        let ghost p_pre = *p;
        let e = g.entities[i];
        match (e.player, e.body_handle) {
            (Some(pd), Some(h)) => {
                proof {
                    assert(!player_owns(g.entities@, i as int, h as int)) by {
                        if player_owns(g.entities@, i as int, h as int) {
                            let j = choose|j: int|
                                0 <= j < i && (#[trigger] g.entities@[j]).player is Some
                                    && g.entities@[j].body_handle == Some(h);
                            assert(false);
                        }
                    }
                    assert(p_pre.bodies@[h as int] == old(p).bodies@[h as int]);
                }
                let current = p.body_linvel(h);
                let v = player_velocity(axis, jump_pressed, &pd, current.y);
                p.set_body_linvel(h, v);
                proof {
                    assert(moved_rel(g.entities@[i as int], *old(p), *p, axis as int, jump_pressed));
                    assert forall|j: int| 0 <= j < i implies moved_rel(
                        #[trigger] g.entities@[j],
                        *old(p),
                        *p,
                        axis as int,
                        jump_pressed,
                    ) by {
                        assert(moved_rel(g.entities@[j], *old(p), p_pre, axis as int, jump_pressed));
                        match (g.entities@[j].player, g.entities@[j].body_handle) {
                            (Some(_), Some(hj)) => {
                                assert(hj != h);
                                assert(p.bodies@[hj as int] == p_pre.bodies@[hj as int]);
                            },
                            _ => {},
                        }
                    }
                }
            },
            _ => {},
        }
        i += 1;
    }
}

/// Entity `j` grounds entity `i`: it is a non-player entity with a bound
/// collider in active contact with `i`'s collider, positioned below `i`.
pub open spec fn grounded_witness(g: GameWorld, p: PhysicsWorld, i: int, j: int) -> bool {
    &&& 0 <= j < g.entities@.len()
    &&& (#[trigger] g.entities@[j]).player is None
    &&& g.entities@[j].collider_handle is Some
    &&& g.entities@[j].position is Some
    &&& spec_active_contact(
        p,
        g.entities@[i].collider_handle->Some_0 as int,
        g.entities@[j].collider_handle->Some_0 as int,
    )
    &&& g.entities@[i].position->Some_0.value.y < g.entities@[j].position->Some_0.value.y
}

/// A player entity is grounded when some non-player collider below it has an
/// active contact with its collider.
pub open spec fn spec_grounded(g: GameWorld, p: PhysicsWorld, i: int) -> bool {
    exists|j: int| grounded_witness(g, p, i, j)
}

/// Scan the store for a grounding witness for entity `i`.
fn compute_grounded(g: &GameWorld, p: &PhysicsWorld, i: usize) -> (r: bool)
    requires
        i < g.entities@.len(),
        g.entities@[i as int].collider_handle is Some,
        g.entities@[i as int].position is Some,
    ensures
        r == spec_grounded(*g, *p, i as int),
{
    let e = g.entities[i];
    let my_pos = match e.position {
        Some(q) => q,
        None => Position { value: Vec2 { x: 0, y: 0 } },
    };
    let my_ch = match e.collider_handle {
        Some(c) => c,
        None => 0,
    };
    let n = g.entities.len();
    let mut j: usize = 0;
    while j < n
        invariant
            n == g.entities@.len(),
            i < n,
            j <= n,
            g.entities@[i as int].collider_handle == Some(my_ch),
            g.entities@[i as int].position == Some(my_pos),
            forall|k: int| 0 <= k < j ==> !grounded_witness(*g, *p, i as int, k),
        decreases n - j,
    {
        let o = g.entities[j];
        match (o.player, o.collider_handle, o.position) {
            (None, Some(och), Some(opos)) => {
                match p.contact_pair(my_ch, och) {
                    Some(active) => {
                        if active && my_pos.value.y < opos.value.y {
                            proof {
                                assert(grounded_witness(*g, *p, i as int, j as int));
                            }
                            return true;
                        }
                    },
                    None => {},
                }
            },
            _ => {},
        }
        j += 1;
    }
    false
}

/// Set a player's grounded flag, leaving the rest of the record alone.
pub open spec fn set_grounded(e: EntityRec, f: bool) -> EntityRec {
    EntityRec { player: Some(PlayerData { is_grounded: f, ..e.player->Some_0 }), ..e }
}

/// What the grounded-detection system leaves of each entity.
pub open spec fn grounded_target(g0: GameWorld, p: PhysicsWorld, i: int) -> EntityRec {
    let e = g0.entities@[i];
    if e.player is Some && e.collider_handle is Some && e.position is Some {
        set_grounded(e, spec_grounded(g0, p, i))
    } else {
        e
    }
}

/// The grounded-detection system: refresh every player's grounded flag from
/// the physics world's active contacts and the entities' relative heights.
pub fn update_player_is_grounded(g: &mut GameWorld, p: &PhysicsWorld)
    requires
        world_wf(*old(g)),
        p.wf(),
        p.vals_ok(),
        linked(*old(g), *p),
    ensures
        world_wf(*final(g)),
        linked(*final(g), *p),
        final(g).entities@.len() == old(g).entities@.len(),
        forall|i: int|
            0 <= i < old(g).entities@.len() ==> final(g).entities@[i] == grounded_target(
                *old(g),
                *p,
                i,
            ),
{
    let n = g.entities.len();
    let mut i: usize = 0;
    while i < n
        invariant
            n == g.entities@.len(),
            g.entities@.len() == old(g).entities@.len(),
            i <= n,
            world_wf(*g),
            linked(*g, *p),
            forall|j: int| 0 <= j < i ==> g.entities@[j] == grounded_target(*old(g), *p, j),
            forall|j: int| i <= j < n ==> g.entities@[j] == old(g).entities@[j],
        decreases n - i,
    {
        let e = g.entities[i];
        match (e.player, e.collider_handle, e.position) {
            (Some(pd), Some(_), Some(_)) => {
                let f = compute_grounded(g, p, i);
                proof {
                    assert(spec_grounded(*g, *p, i as int) == spec_grounded(*old(g), *p, i as int))
                        by {
                        if spec_grounded(*g, *p, i as int) {
                            let j = choose|j: int| grounded_witness(*g, *p, i as int, j);
                            if 0 <= j < i {
                                assert(g.entities@[j] == grounded_target(*old(g), *p, j));
                            }
                            assert(g.entities@[j] == old(g).entities@[j]);
                            assert(grounded_witness(*old(g), *p, i as int, j));
                        }
                        if spec_grounded(*old(g), *p, i as int) {
                            let j = choose|j: int| grounded_witness(*old(g), *p, i as int, j);
                            if 0 <= j < i {
                                assert(g.entities@[j] == grounded_target(*old(g), *p, j));
                            }
                            assert(g.entities@[j] == old(g).entities@[j]);
                            assert(grounded_witness(*g, *p, i as int, j));
                        }
                    }
                }
                let mut e1 = e;
                e1.player = Some(PlayerData { speed: pd.speed, jump: pd.jump, is_grounded: f });
                g.entities.set(i, e1);
            },
            _ => {},
        }
        i += 1;
    }
}

/// Entities `i` and `j` witness a goal reach: a player's collider and a
/// star's collider currently intersect.
pub open spec fn goal_witness(g: GameWorld, p: PhysicsWorld, i: int, j: int) -> bool {
    &&& 0 <= i < g.entities@.len()
    &&& 0 <= j < g.entities@.len()
    &&& (#[trigger] g.entities@[i]).player is Some
    &&& (#[trigger] g.entities@[j]).is_star
    &&& g.entities@[i].collider_handle is Some
    &&& g.entities@[j].collider_handle is Some
    &&& spec_intersecting(
        p,
        g.entities@[i].collider_handle->Some_0 as int,
        g.entities@[j].collider_handle->Some_0 as int,
    )
}

/// The player has reached the goal: some player-star collider pair intersects.
pub open spec fn spec_goal(g: GameWorld, p: PhysicsWorld) -> bool {
    exists|i: int, j: int| goal_witness(g, p, i, j)
}

/// Whether any player's collider currently intersects any star's collider.
pub fn goal_reached(g: &GameWorld, p: &PhysicsWorld) -> (r: bool)
    ensures
        r == spec_goal(*g, *p),
{
    let n = g.entities.len();
    let mut i: usize = 0;
    while i < n
        invariant
            n == g.entities@.len(),
            i <= n,
            forall|a: int, b: int| 0 <= a < i ==> !goal_witness(*g, *p, a, b),
        decreases n - i,
    {
        let e = g.entities[i];
        match (e.player, e.collider_handle) {
            (Some(_), Some(pch)) => {
                let mut j: usize = 0;
                while j < n
                    invariant
                        n == g.entities@.len(),
                        i < n,
                        j <= n,
                        g.entities@[i as int].player is Some,
                        g.entities@[i as int].collider_handle == Some(pch),
                        forall|b: int| 0 <= b < j ==> !goal_witness(*g, *p, i as int, b),
                    decreases n - j,
                {
                    let o = g.entities[j];
                    if o.is_star {
                        match o.collider_handle {
                            Some(sch) => {
                                if p.intersection_pair(pch, sch) {
                                    proof {
                                        assert(goal_witness(*g, *p, i as int, j as int));
                                    }
                                    return true;
                                }
                            },
                            None => {},
                        }
                    }
                    j += 1;
                }
            },
            _ => {},
        }
        i += 1;
    }
    false
}


/// An entity record with its physics handles dropped.
pub open spec fn unbound_rec(e: EntityRec) -> EntityRec {
    EntityRec { body_handle: None, collider_handle: None, ..e }
}

/// Remove one entity's physics objects, collider before body, then drop the
/// entity's handle copies: removal always goes handle, then world, then the
/// entity's copy. The collider set is never left referencing a freed body,
/// and afterwards neither handle resolves to a live object. Other entities'
/// objects are untouched.
pub fn remove_physics(g: &mut GameWorld, p: &mut PhysicsWorld, i: usize)
    requires
        world_wf(*old(g)),
        old(p).wf(),
        old(p).vals_ok(),
        linked(*old(g), *old(p)),
        i < old(g).entities@.len(),
    ensures
        world_wf(*final(g)),
        final(p).wf(),
        final(p).vals_ok(),
        linked(*final(g), *final(p)),
        final(g).entities@.len() == old(g).entities@.len(),
        final(g).entities@[i as int] == unbound_rec(old(g).entities@[i as int]),
        forall|j: int|
            0 <= j < old(g).entities@.len() && j != i ==> final(g).entities@[j] == old(
                g,
            ).entities@[j],
        old(g).entities@[i as int].body_handle is Some ==> !body_live(
            *final(p),
            old(g).entities@[i as int].body_handle->Some_0 as int,
        ),
        old(g).entities@[i as int].collider_handle is Some ==> !collider_live(
            *final(p),
            old(g).entities@[i as int].collider_handle->Some_0 as int,
        ),
        final(p).bodies@.len() == old(p).bodies@.len(),
        final(p).colliders@.len() == old(p).colliders@.len(),
        forall|h: int|
            0 <= h < old(p).bodies@.len() && old(g).entities@[i as int].body_handle != Some(
                h as usize,
            ) ==> final(p).bodies@[h] == old(p).bodies@[h],
        forall|j: int|
            0 <= j < old(g).entities@.len() && j != i && (
            #[trigger] old(g).entities@[j]).collider_handle is Some
                ==> final(p).colliders@[old(g).entities@[j].collider_handle->Some_0 as int]
                == old(p).colliders@[old(g).entities@[j].collider_handle->Some_0 as int],
        forall|h: int| collider_live(*final(p), h) ==> collider_live(*old(p), h),
        forall|h: int| body_live(*final(p), h) ==> body_live(*old(p), h),
        final(p).intersections@ == old(p).intersections@,
        final(p).contacts@ == old(p).contacts@,
{
    let e = g.entities[i];
    match e.collider_handle {
        Some(ch) => {
            p.remove_collider(ch);
        },
        None => {},
    }
    match e.body_handle {
        Some(bh) => {
            p.remove_rigid_body(bh);
        },
        None => {},
    }
    let mut e1 = e;
    e1.collider_handle = None;
    e1.body_handle = None;
    g.entities.set(i, e1);
}

/// Tear the level down: remove every entity's physics objects (collider
/// before body, entity by entity) and then despawn every entity. Every handle
/// an entity held is dead afterwards, so a stale copy of one can no longer
/// witness a contact or an intersection.
pub fn clear_level(g: &mut GameWorld, p: &mut PhysicsWorld)
    requires
        world_wf(*old(g)),
        old(p).wf(),
        old(p).vals_ok(),
        linked(*old(g), *old(p)),
    ensures
        world_wf(*final(g)),
        final(p).wf(),
        final(p).vals_ok(),
        linked(*final(g), *final(p)),
        final(g).entities@.len() == 0,
        forall|i: int|
            0 <= i < old(g).entities@.len() && (#[trigger] old(g).entities@[i]).body_handle
                is Some ==> !body_live(*final(p), old(g).entities@[i].body_handle->Some_0 as int),
        forall|i: int|
            0 <= i < old(g).entities@.len() && (#[trigger] old(g).entities@[i]).collider_handle
                is Some ==> !collider_live(
                *final(p),
                old(g).entities@[i].collider_handle->Some_0 as int,
            ),
        final(p).intersections@ == old(p).intersections@,
        final(p).contacts@ == old(p).contacts@,
{
    let n = g.entities.len();
    let mut i: usize = 0;
    while i < n
        invariant
            n == g.entities@.len(),
            g.entities@.len() == old(g).entities@.len(),
            i <= n,
            world_wf(*g),
            p.wf(),
            p.vals_ok(),
            linked(*g, *p),
            forall|j: int|
                0 <= j < i ==> #[trigger] g.entities@[j] == unbound_rec(old(g).entities@[j]),
            forall|j: int| i <= j < n ==> g.entities@[j] == old(g).entities@[j],
            forall|j: int|
                0 <= j < i && (#[trigger] old(g).entities@[j]).body_handle is Some ==> !body_live(
                    *p,
                    old(g).entities@[j].body_handle->Some_0 as int,
                ),
            forall|j: int|
                0 <= j < i && (#[trigger] old(g).entities@[j]).collider_handle is Some
                    ==> !collider_live(*p, old(g).entities@[j].collider_handle->Some_0 as int),
            p.intersections@ == old(p).intersections@,
            p.contacts@ == old(p).contacts@,
        decreases n - i,
    {
        let ghost p_pre = *p;
        let ghost g_pre = *g;
        remove_physics(g, p, i);
        proof {
            assert forall|j: int|
                0 <= j < i && (#[trigger] old(g).entities@[j]).body_handle is Some implies
                !body_live(*p, old(g).entities@[j].body_handle->Some_0 as int) by {
                assert(!body_live(p_pre, old(g).entities@[j].body_handle->Some_0 as int));
            }
            assert forall|j: int|
                0 <= j < i && (#[trigger] old(g).entities@[j]).collider_handle is Some implies
                !collider_live(*p, old(g).entities@[j].collider_handle->Some_0 as int) by {
                assert(!collider_live(p_pre, old(g).entities@[j].collider_handle->Some_0 as int));
            }
        }
        i += 1;
    }
    g.entities = Vec::new();
}

/// The goal system: when any player's collider intersects any star's sensor,
/// the level advances — every entity's physics objects are removed (collider
/// before body), every entity is despawned, and the level id is incremented.
/// Without an intersection nothing changes.
pub fn goal_phase(g: &mut GameWorld, p: &mut PhysicsWorld, level: &mut Level) -> (fired: bool)
    requires
        world_wf(*old(g)),
        old(p).wf(),
        old(p).vals_ok(),
        linked(*old(g), *old(p)),
        old(level).id < usize::MAX,
    ensures
        world_wf(*final(g)),
        final(p).wf(),
        final(p).vals_ok(),
        linked(*final(g), *final(p)),
        fired == spec_goal(*old(g), *old(p)),
        !fired ==> *final(g) == *old(g) && *final(p) == *old(p) && *final(level) == *old(level),
        fired ==> {
            &&& final(level).id == old(level).id + 1
            &&& final(level).length == old(level).length
            &&& final(g).entities@.len() == 0
            &&& forall|i: int|
                0 <= i < old(g).entities@.len() && (#[trigger] old(g).entities@[i]).body_handle
                    is Some ==> !body_live(
                    *final(p),
                    old(g).entities@[i].body_handle->Some_0 as int,
                )
            &&& forall|i: int|
                0 <= i < old(g).entities@.len() && (
                #[trigger] old(g).entities@[i]).collider_handle is Some ==> !collider_live(
                    *final(p),
                    old(g).entities@[i].collider_handle->Some_0 as int,
                )
        },
{
    if goal_reached(g, p) {
        level.id = level.id + 1;
        clear_level(g, p);
        true
    } else {
        false
    }
}

/// A goal fires at most once per reach: a collider pair of which either side
/// has been removed can no longer witness an intersection, so re-running the
/// query that fired the transition, with the stale handles, reports nothing.
pub proof fn lemma_goal_fires_once(p1: PhysicsWorld, a: int, b: int)
    requires
        !collider_live(p1, a) || !collider_live(p1, b),
    ensures
        !spec_intersecting(p1, a, b),
        !spec_in_contact(p1, a, b),
{
}

} // verus!
