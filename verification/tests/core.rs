use stlar::coords::Extent;
use stlar::coords::Position;
use stlar::coords::Shape;
use stlar::coords::Vec2;
use stlar::coords::from_simulation_space;
use stlar::coords::to_simulation_space;
use stlar::game::ColliderBuilder;
use stlar::game::Level;
use stlar::game::Rect;
use stlar::game::RigidBodyBuilder;
use stlar::game::camera_offset;
use stlar::game::clear_level;
use stlar::game::goal_phase;
use stlar::game::goal_reached;
use stlar::game::move_player;
use stlar::game::player_velocity;
use stlar::game::remove_physics;
use stlar::game::setup_level;
use stlar::game::setup_player;
use stlar::game::spawn_platform;
use stlar::game::spawn_star;
use stlar::game::update_player_is_grounded;
use stlar::bridge::bind_phase;
use stlar::bridge::sync_phase;
use stlar::physics::BodyKind;
use stlar::physics::BodyUpdate;
use stlar::physics::ContactRec;
use stlar::physics::IntersectionRec;
use stlar::physics::PhysicsWorld;
use stlar::world::GameWorld;
use stlar::world::PlayerData;

fn pos(x: i64, y: i64) -> Position {
    Position { value: Vec2 { x, y } }
}

#[test]
fn cuboid_translation_applies_center_offset() {
    let s = Shape::Cuboid { size: Extent { x: 64, y: 64 } };
    let t = to_simulation_space(&pos(100, 64), &s);
    assert_eq!(t.x, 132);
    assert_eq!(t.y, 96);
}

#[test]
fn ball_translation_keeps_anchor() {
    let s = Shape::Ball { r: 35 };
    let t = to_simulation_space(&pos(100, 64), &s);
    assert_eq!(t.x, 100);
    assert_eq!(t.y, 64);
}

#[test]
fn round_trip_recovers_position_for_cuboid() {
    let s = Shape::Cuboid { size: Extent { x: 65, y: 33 } };
    let p = pos(-250, 471);
    let back = from_simulation_space(&to_simulation_space(&p, &s), &s);
    assert_eq!(back.value.x, p.value.x);
    assert_eq!(back.value.y, p.value.y);
}

#[test]
fn round_trip_recovers_position_for_ball() {
    let s = Shape::Ball { r: 35 };
    let p = pos(12345, -9876);
    let back = from_simulation_space(&to_simulation_space(&p, &s), &s);
    assert_eq!(back.value.x, p.value.x);
    assert_eq!(back.value.y, p.value.y);
}

#[test]
fn builders_carry_descriptor_settings() {
    let c = ColliderBuilder::ball(35).with_as_sensor();
    assert!(c.collider.sensor);
    let c2 = ColliderBuilder::cuboid(Extent { x: 64, y: 64 }).with_friction(0).with_restitution(0);
    assert!(!c2.collider.sensor);
    assert_eq!(c2.collider.friction_milli, 0);
    assert_eq!(c2.collider.restitution_milli, 0);
    assert!(matches!(RigidBodyBuilder::fixed().body.kind, BodyKind::Fixed));
    assert!(matches!(RigidBodyBuilder::dynamic().body.kind, BodyKind::Dynamic));
}

#[test]
fn bind_resolves_descriptors_before_step() {
    let mut g = GameWorld::new();
    let mut p = PhysicsWorld::new();
    setup_player(&mut g);
    assert!(g.entities[0].body_desc.is_some());
    assert!(g.entities[0].body_handle.is_none());
    bind_phase(&mut g, &mut p);
    let e = &g.entities[0];
    assert!(e.body_desc.is_none());
    assert!(e.collider_desc.is_none());
    let bh = e.body_handle.expect("body bound");
    let ch = e.collider_handle.expect("collider bound");
    let body = p.bodies[bh].as_ref().expect("body live");
    assert!(matches!(body.kind, BodyKind::Dynamic));
    // spawn position (100, 64) with a 64x64 cuboid lands at its center
    assert_eq!(body.translation.x, 132);
    assert_eq!(body.translation.y, 96);
    let col = p.colliders[ch].as_ref().expect("collider live");
    assert_eq!(col.parent, Some(bh));
    // the freshly bound body takes this frame's step outcome
    let updates = vec![BodyUpdate { body: bh, translation: Vec2 { x: 132, y: 100 }, linvel: Vec2 { x: 0, y: 981 } }];
    p.apply_step(&updates, Vec::new(), Vec::new());
    assert_eq!(p.bodies[bh].as_ref().unwrap().translation.y, 100);
}

#[test]
fn sync_pushes_dirty_position_then_pulls_it_back() {
    let mut g = GameWorld::new();
    let mut p = PhysicsWorld::new();
    setup_player(&mut g);
    bind_phase(&mut g, &mut p);
    let bh = g.entities[0].body_handle.unwrap();
    // spawn marks the position dirty: the first sync pushes it
    sync_phase(&mut g, &mut p);
    assert_eq!(p.bodies[bh].as_ref().unwrap().translation.x, 132);
    assert!(!g.entities[0].position_dirty);
    // a gameplay write pushes on the next sync
    g.set_position(0, pos(300, 400));
    assert!(g.entities[0].position_dirty);
    sync_phase(&mut g, &mut p);
    assert_eq!(p.bodies[bh].as_ref().unwrap().translation.x, 332);
    assert_eq!(p.bodies[bh].as_ref().unwrap().translation.y, 432);
    assert_eq!(g.entities[0].position.unwrap().value.x, 300);
    // with no external write, sync pulls the simulation's value
    let updates = vec![BodyUpdate { body: bh, translation: Vec2 { x: 332, y: 500 }, linvel: Vec2 { x: 0, y: 0 } }];
    p.apply_step(&updates, Vec::new(), Vec::new());
    sync_phase(&mut g, &mut p);
    let got = g.entities[0].position.unwrap().value;
    assert_eq!(got.x, 300);
    assert_eq!(got.y, 468); // 500 - 32 (half of 64)
}

#[test]
fn removal_kills_collider_and_body_and_keeps_others() {
    let mut g = GameWorld::new();
    let mut p = PhysicsWorld::new();
    setup_player(&mut g);
    spawn_platform(&mut g, Rect { x: 0, y: 0, w: 64, h: 64 });
    bind_phase(&mut g, &mut p);
    let bh = g.entities[0].body_handle.unwrap();
    let ch = g.entities[0].collider_handle.unwrap();
    remove_physics(&mut g, &mut p, 0);
    assert!(p.bodies[bh].is_none());
    assert!(p.colliders[ch].is_none());
    assert!(g.entities[0].body_handle.is_none());
    assert!(g.entities[0].collider_handle.is_none());
    // no live collider references a freed body
    for c in p.colliders.iter().flatten() {
        if let Some(parent) = c.parent {
            assert!(p.bodies[parent].is_some());
        }
    }
    // the platform's objects survive
    let pb = g.entities[1].body_handle.unwrap();
    assert!(p.bodies[pb].is_some());
}

#[test]
fn queries_on_dead_handles_report_no_relation() {
    let mut g = GameWorld::new();
    let mut p = PhysicsWorld::new();
    setup_player(&mut g);
    spawn_star(&mut g, Vec2 { x: 200, y: 96 });
    bind_phase(&mut g, &mut p);
    let pch = g.entities[0].collider_handle.unwrap();
    let sch = g.entities[1].collider_handle.unwrap();
    p.apply_step(&Vec::new(), vec![IntersectionRec { a: pch, b: sch }], Vec::new());
    assert!(p.intersection_pair(pch, sch));
    assert!(p.intersection_pair(sch, pch));
    clear_level(&mut g, &mut p);
    assert!(!p.intersection_pair(pch, sch));
    assert_eq!(p.contact_pair(pch, sch), None);
    assert_eq!(g.entities.len(), 0);
}

#[test]
fn unrelated_pairs_report_no_contact() {
    let mut g = GameWorld::new();
    let mut p = PhysicsWorld::new();
    setup_player(&mut g);
    spawn_platform(&mut g, Rect { x: 0, y: 200, w: 64, h: 64 });
    bind_phase(&mut g, &mut p);
    let a = g.entities[0].collider_handle.unwrap();
    let b = g.entities[1].collider_handle.unwrap();
    assert!(!p.intersection_pair(a, b));
    assert_eq!(p.contact_pair(a, b), None);
}

#[test]
fn goal_fires_exactly_once_per_reach() {
    let mut g = GameWorld::new();
    let mut p = PhysicsWorld::new();
    let mut level = Level { id: 1, length: 1600 };
    setup_player(&mut g);
    spawn_star(&mut g, Vec2 { x: 120, y: 80 });
    bind_phase(&mut g, &mut p);
    let pch = g.entities[0].collider_handle.unwrap();
    let sch = g.entities[1].collider_handle.unwrap();
    assert!(!goal_reached(&g, &p));
    p.apply_step(&Vec::new(), vec![IntersectionRec { a: sch, b: pch }], Vec::new());
    assert!(goal_reached(&g, &p));
    let fired = goal_phase(&mut g, &mut p, &mut level);
    assert!(fired);
    assert_eq!(level.id, 2);
    assert_eq!(g.entities.len(), 0);
    // the stale handles can no longer witness the intersection
    assert!(!p.intersection_pair(pch, sch));
    let fired_again = goal_phase(&mut g, &mut p, &mut level);
    assert!(!fired_again);
    assert_eq!(level.id, 2);
}

#[test]
fn player_velocity_follows_axis_and_jump() {
    let grounded = PlayerData { speed: 2000, jump: 5000, is_grounded: true };
    let airborne = PlayerData { speed: 2000, jump: 5000, is_grounded: false };
    let v = player_velocity(1, false, &grounded, 77);
    assert_eq!(v.x, 2000);
    assert_eq!(v.y, 77);
    let v = player_velocity(-1, true, &grounded, 77);
    assert_eq!(v.x, -2000);
    assert_eq!(v.y, -5000);
    let v = player_velocity(0, true, &airborne, 77);
    assert_eq!(v.x, 0);
    assert_eq!(v.y, 77);
}

#[test]
fn move_player_sets_body_velocity() {
    let mut g = GameWorld::new();
    let mut p = PhysicsWorld::new();
    setup_player(&mut g);
    bind_phase(&mut g, &mut p);
    let bh = g.entities[0].body_handle.unwrap();
    move_player(&g, &mut p, 1, false);
    let b = p.bodies[bh].as_ref().unwrap();
    assert_eq!(b.linvel.x, 2000);
    assert_eq!(b.linvel.y, 0);
}

#[test]
fn grounded_needs_active_contact_below() {
    let mut g = GameWorld::new();
    let mut p = PhysicsWorld::new();
    setup_player(&mut g);
    spawn_platform(&mut g, Rect { x: 0, y: 200, w: 1600, h: 64 });
    bind_phase(&mut g, &mut p);
    let pch = g.entities[0].collider_handle.unwrap();
    let fch = g.entities[1].collider_handle.unwrap();
    update_player_is_grounded(&mut g, &p);
    assert!(!g.entities[0].player.unwrap().is_grounded);
    // an inactive contact does not ground
    p.apply_step(&Vec::new(), Vec::new(), vec![ContactRec { a: pch, b: fch, active: false }]);
    update_player_is_grounded(&mut g, &p);
    assert!(!g.entities[0].player.unwrap().is_grounded);
    // an active contact with the platform below does
    p.apply_step(&Vec::new(), Vec::new(), vec![ContactRec { a: pch, b: fch, active: true }]);
    update_player_is_grounded(&mut g, &p);
    assert!(g.entities[0].player.unwrap().is_grounded);
}

#[test]
fn camera_follows_until_level_end() {
    let shape = Shape::Cuboid { size: Extent { x: 64, y: 64 } };
    // center at 132: left of half the 1600-unit screen, camera stays at 0
    assert_eq!(camera_offset(&pos(100, 64), &shape, 1600, 2400), Some(0));
    // center at 1032: camera scrolls by the excess over half a screen
    assert_eq!(camera_offset(&pos(1000, 64), &shape, 1600, 2400), Some(232));
    // center within half a screen of the level end: no update
    assert_eq!(camera_offset(&pos(1700, 64), &shape, 1600, 2400), None);
}

#[test]
fn level_one_spawns_six_entities_and_sets_length() {
    let mut g = GameWorld::new();
    let mut level = Level { id: 1, length: 0 };
    setup_level(&mut g, &mut level, 1600, 1200);
    assert_eq!(g.entities.len(), 6);
    assert_eq!(level.length, 1600);
    // four boundary platforms, one ledge, one goal sensor
    let stars = g.entities.iter().filter(|e| e.is_star).count();
    let platforms = g.entities.iter().filter(|e| e.is_platform).count();
    assert_eq!(stars, 1);
    assert_eq!(platforms, 5);
    // the goal sensor sits at (screen_width - 64, screen_height - 96) pixels
    let star = g.entities.iter().find(|e| e.is_star).unwrap();
    let sp = star.position.unwrap().value;
    assert_eq!(sp.x, 1600 - 128);
    assert_eq!(sp.y, 1200 - 192);
    assert!(star.collider_desc.unwrap().sensor);
}

#[test]
fn level_two_spawns_eight_entities_and_extends_length() {
    let mut g = GameWorld::new();
    let mut level = Level { id: 2, length: 0 };
    setup_level(&mut g, &mut level, 1600, 1200);
    assert_eq!(g.entities.len(), 8);
    assert_eq!(level.length, 2400);
}

#[test]
fn unknown_level_spawns_nothing() {
    let mut g = GameWorld::new();
    let mut level = Level { id: 3, length: 55 };
    setup_level(&mut g, &mut level, 1600, 1200);
    assert_eq!(g.entities.len(), 0);
    assert_eq!(level.length, 55);
}

#[test]
fn list_queries_filter_by_handle() {
    let mut p = PhysicsWorld::new();
    p.apply_step(
        &Vec::new(),
        vec![
            IntersectionRec { a: 0, b: 1 },
            IntersectionRec { a: 2, b: 3 },
            IntersectionRec { a: 4, b: 0 },
        ],
        vec![
            ContactRec { a: 0, b: 2, active: true },
            ContactRec { a: 1, b: 3, active: false },
        ],
    );
    let hits = p.get_intersections(0);
    assert_eq!(hits.len(), 2);
    assert!(hits.iter().all(|r| r.a == 0 || r.b == 0));
    let touches = p.get_contacts(3);
    assert_eq!(touches.len(), 1);
    assert_eq!(touches[0].a, 1);
    assert!(!touches[0].active);
    assert!(p.get_contacts(9).is_empty());
}
