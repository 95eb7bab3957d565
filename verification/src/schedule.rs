//! The staged scheduler: a fixed, totally ordered pipeline of phases run once
//! per rendered frame — Bind, Step, Sync, Update, Render. Each phase function
//! requires the machine to stand in its phase and leaves it in the next, so a
//! caller cannot run them out of order and no phase can run twice in a frame:
//! the barrier discipline is in the contracts. The surrounding program owns
//! the real simulation engine; it performs the step between `phase_bind` and
//! `phase_step` and hands the outcome in.

use vstd::prelude::*;

use crate::bridge::bind_phase;
use crate::bridge::bind_rel;
use crate::bridge::sync_phase;
use crate::bridge::sync_rel;
use crate::game::Level;
use crate::game::goal_phase;
use crate::game::grounded_target;
use crate::game::move_player;
use crate::game::moved_rel;
use crate::game::setup_level;
use crate::game::setup_player;
use crate::game::spec_goal;
use crate::game::update_player_is_grounded;
use crate::physics::BodyRec;
use crate::physics::BodyUpdate;
use crate::physics::ContactRec;
use crate::physics::IntersectionRec;
use crate::physics::PhysicsWorld;
use crate::physics::body_at;
use crate::physics::body_live;
use crate::physics::distinct_updates;
use crate::physics::has_update;
use crate::physics::updates_ok;
use crate::world::EntityRec;
use crate::world::GameWorld;
use crate::world::linked;
use crate::world::world_wf;

verus! {

/// One segment of the per-frame pipeline.
#[derive(Clone, Copy, PartialEq, Eq, Structural, Debug)]
pub enum Phase {
    Bind,
    Step,
    Sync,
    Update,
    Render,
}

/// The phase that follows `p` in the fixed frame order; after Render the next
/// frame begins with Bind.
pub open spec fn next_phase(p: Phase) -> Phase {
    match p {
        Phase::Bind => Phase::Step,
        Phase::Step => Phase::Sync,
        Phase::Sync => Phase::Update,
        Phase::Update => Phase::Render,
        Phase::Render => Phase::Bind,
    }
}

/// Per-frame input: a horizontal axis in {-1, 0, 1} and a jump edge-trigger.
#[derive(Clone, Copy, PartialEq, Eq, Structural, Debug)]
pub struct FrameInput {
    pub axis: i64,
    pub jump_pressed: bool,
}

/// The core's whole state: the entity store, the mirrored physics world, the
/// current level and the scheduler's position in the frame.
pub struct GameCore {
    pub game: GameWorld,
    pub phys: PhysicsWorld,
    pub level: Level,
    pub phase: Phase,
}

impl GameCore {
    /// The store, the physics mirror and the level agree with each other.
    pub open spec fn inv(self) -> bool {
        &&& world_wf(self.game)
        &&& self.phys.wf()
        &&& self.phys.vals_ok()
        &&& linked(self.game, self.phys)
    }

    /// A fresh core standing at the start of level one's first frame: the
    /// player and the level geometry are spawned as pending descriptors, to
    /// be bound in the first frame's Bind phase.
    pub fn new(sw: u32, sh: u32) -> (c: GameCore)
        requires
            64 <= sw <= crate::game::SCREEN_LIMIT,
            64 <= sh <= crate::game::SCREEN_LIMIT,
        ensures
            c.inv(),
            c.phase == Phase::Bind,
            c.level.id == 1,
            c.level.length == sw as i64,
            c.game.entities@ == seq![crate::game::player_rec()] + crate::game::level_one_recs(
                sw,
                sh,
            ),
            c.phys.bodies@.len() == 0,
            c.phys.colliders@.len() == 0,
    {
        let mut game = GameWorld::new();
        let phys = PhysicsWorld::new();
        let mut level = Level { id: 1, length: sw as i64 };
        setup_player(&mut game);
        setup_level(&mut game, &mut level, sw, sh);
        proof {
            assert(game.entities@ =~= seq![crate::game::player_rec()]
                + crate::game::level_one_recs(sw, sh));
        }
        GameCore { game, phys, level, phase: Phase::Bind }
    }

    /// Bind: materialize every pending descriptor before anything else in the
    /// frame, so entities spawned last frame are physical actors for this
    /// frame's step.
    pub fn phase_bind(&mut self)
        requires
            old(self).inv(),
            old(self).phase == Phase::Bind,
        ensures
            final(self).inv(),
            final(self).phase == Phase::Step && final(self).phase == next_phase(old(self).phase),
            final(self).level == old(self).level,
            final(self).game.entities@.len() == old(self).game.entities@.len(),
            forall|i: int|
                0 <= i < old(self).game.entities@.len() ==> bind_rel(
                    old(self).game.entities@[i],
                    #[trigger] final(self).game.entities@[i],
                    final(self).phys,
                ),
            forall|h: int|
                0 <= h < old(self).phys.bodies@.len() ==> final(self).phys.bodies@[h] == old(
                    self,
                ).phys.bodies@[h],
            final(self).phys.intersections@ == old(self).phys.intersections@,
            final(self).phys.contacts@ == old(self).phys.contacts@,
    {
        bind_phase(&mut self.game, &mut self.phys);
        self.phase = Phase::Step;
    }

    /// Step: apply the simulation engine's outcome for this frame — the new
    /// transforms and velocities of the named bodies and the narrow phase's
    /// contact and intersection findings.
    pub fn phase_step(
        &mut self,
        updates: &Vec<BodyUpdate>,
        intersections: Vec<IntersectionRec>,
        contacts: Vec<ContactRec>,
    )
        requires
            old(self).inv(),
            old(self).phase == Phase::Step,
            distinct_updates(updates@),
            updates_ok(updates@),
        ensures
            final(self).inv(),
            final(self).phase == Phase::Sync && final(self).phase == next_phase(old(self).phase),
            final(self).level == old(self).level,
            final(self).game == old(self).game,
            forall|k: int|
                0 <= k < updates@.len() && body_live(
                    old(self).phys,
                    (#[trigger] updates@[k]).body as int,
                ) ==> body_at(final(self).phys, updates@[k].body as int) == (BodyRec {
                    kind: body_at(old(self).phys, updates@[k].body as int).kind,
                    translation: updates@[k].translation,
                    linvel: updates@[k].linvel,
                }),
            forall|i: int|
                0 <= i < final(self).phys.bodies@.len() && !has_update(updates@, i) ==> final(self).phys.bodies@[i] == old(self).phys.bodies@[i],
            final(self).phys.colliders@ == old(self).phys.colliders@,
            final(self).phys.intersections@ == intersections@,
            final(self).phys.contacts@ == contacts@,
    {
        self.phys.apply_step(updates, intersections, contacts);
        self.phase = Phase::Sync;
    }

    /// Sync: reconcile gameplay positions with simulation transforms,
    /// last-writer-wins per entity.
    pub fn phase_sync(&mut self)
        requires
            old(self).inv(),
            old(self).phase == Phase::Sync,
        ensures
            final(self).inv(),
            final(self).phase == Phase::Update && final(self).phase == next_phase(old(self).phase),
            final(self).level == old(self).level,
            final(self).game.entities@.len() == old(self).game.entities@.len(),
            forall|i: int|
                0 <= i < old(self).game.entities@.len() ==> sync_rel(
                    old(self).game.entities@[i],
                    #[trigger] final(self).game.entities@[i],
                    old(self).phys,
                    final(self).phys,
                ),
            final(self).phys.colliders@ == old(self).phys.colliders@,
            final(self).phys.intersections@ == old(self).phys.intersections@,
            final(self).phys.contacts@ == old(self).phys.contacts@,
    {
        sync_phase(&mut self.game, &mut self.phys);
        self.phase = Phase::Update;
    }

    /// Update: run the gameplay systems on the post-sync state — goal
    /// detection with the level transition, then player movement and
    /// grounded detection on whatever world is current afterwards.
    pub fn phase_update(&mut self, input: FrameInput, sw: u32, sh: u32) -> (advanced: bool)
        requires
            old(self).inv(),
            old(self).phase == Phase::Update,
            old(self).level.id < usize::MAX,
            -1 <= input.axis <= 1,
            64 <= sw <= crate::game::SCREEN_LIMIT,
            64 <= sh <= crate::game::SCREEN_LIMIT,
        ensures
            final(self).inv(),
            final(self).phase == Phase::Render && final(self).phase == next_phase(old(self).phase),
            advanced == spec_goal(old(self).game, old(self).phys),
            advanced ==> final(self).level.id == old(self).level.id + 1,
            advanced ==> final(self).game.entities@ == seq![crate::game::player_rec()]
                + crate::game::level_recs(old(self).level.id + 1, sw, sh),
            !advanced ==> final(self).level == old(self).level,
            !advanced ==> forall|i: int|
                0 <= i < old(self).game.entities@.len() ==> moved_rel(
                    #[trigger] old(self).game.entities@[i],
                    old(self).phys,
                    final(self).phys,
                    input.axis as int,
                    input.jump_pressed,
                ),
            !advanced ==> forall|i: int|
                0 <= i < old(self).game.entities@.len() ==> final(self).game.entities@[i]
                    == grounded_target(old(self).game, final(self).phys, i),
    {
        let advanced = goal_phase(&mut self.game, &mut self.phys, &mut self.level);
        if advanced {
            setup_player(&mut self.game);
            setup_level(&mut self.game, &mut self.level, sw, sh);
        }
        let ghost respawned = self.game.entities@;
        move_player(&self.game, &mut self.phys, input.axis, input.jump_pressed);
        let ghost mid_g = self.game;
        update_player_is_grounded(&mut self.game, &self.phys);
        proof {
            if advanced {
                assert(respawned =~= seq![crate::game::player_rec()] + crate::game::level_recs(
                    old(self).level.id + 1,
                    sw,
                    sh,
                ));
                assert forall|i: int|
                    0 <= i < respawned.len() implies (
                #[trigger] respawned[i]).collider_handle is None by {
                    if i == 0 {
                        assert(respawned[i] == crate::game::player_rec());
                    } else {
                        assert(respawned[i] == crate::game::level_recs(
                            old(self).level.id + 1,
                            sw,
                            sh,
                        )[i - 1]);
                    }
                }
                assert forall|i: int|
                    0 <= i < respawned.len() implies self.game.entities@[i] == respawned[i] by {
                    assert(self.game.entities@[i] == grounded_target(mid_g, self.phys, i));
                }
                assert(self.game.entities@ =~= respawned);
            }
        }
        self.phase = Phase::Render;
        advanced
    }

    /// Render: the surrounding program draws every entity's shape at its
    /// just-synchronized position; the core's state is read, not written, and
    /// the frame ends.
    pub fn phase_render(&mut self)
        requires
            old(self).inv(),
            old(self).phase == Phase::Render,
        ensures
            final(self).inv(),
            final(self).phase == Phase::Bind && final(self).phase == next_phase(old(self).phase),
            final(self).game == old(self).game,
            final(self).phys == old(self).phys,
            final(self).level == old(self).level,
    {
        self.phase = Phase::Bind;
    }
}

/// Bind-before-step law: an entity that enters a frame with a pending body
/// descriptor has, after that frame's Bind phase, a live body of the
/// descriptor's kind — and because Step follows Bind in the same frame, a
/// step outcome naming that body reaches it in the same frame: the new
/// transform lands on the freshly bound body, not a frame late.
pub proof fn lemma_bind_before_step(
    e0: EntityRec,
    e1: EntityRec,
    p1: PhysicsWorld,
    p2: PhysicsWorld,
    updates: Seq<BodyUpdate>,
    k: int,
)
    requires
        bind_rel(e0, e1, p1),
        e0.body_desc is Some,
        forall|j: int|
            0 <= j < updates.len() && body_live(p1, (#[trigger] updates[j]).body as int)
                ==> body_at(p2, updates[j].body as int) == (BodyRec {
                kind: body_at(p1, updates[j].body as int).kind,
                translation: updates[j].translation,
                linvel: updates[j].linvel,
            }),
        0 <= k < updates.len(),
        updates[k].body == e1.body_handle->Some_0,
        e1.body_handle is Some,
    ensures
        body_live(p1, e1.body_handle->Some_0 as int),
        body_at(p2, e1.body_handle->Some_0 as int).kind == e0.body_desc->Some_0.kind,
        body_at(p2, e1.body_handle->Some_0 as int).translation == updates[k].translation,
        body_at(p2, e1.body_handle->Some_0 as int).linvel == updates[k].linvel,
{
    assert(body_live(p1, updates[k].body as int));
}

} // verus!
