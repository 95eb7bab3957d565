use stlar::coords::Vec2;
use stlar::physics::BodyKind;
use stlar::physics::BodyUpdate;
use stlar::physics::IntersectionRec;
use stlar::schedule::FrameInput;
use stlar::schedule::GameCore;
use stlar::schedule::Phase;

const SW: u32 = 1600; // 800 pixels, in half-pixel units
const SH: u32 = 1200; // 600 pixels

/// Drive level one to its goal: the player starts at pixel (50, 32), holds
/// right input, and the fabricated engine moves its body toward the goal
/// sensor at pixel (screen_width - 64, screen_height - 96). Crossing
/// screen_width - 64 - 17.5 pixels with the height aligned must advance the
/// level exactly once, leaving level 2 with all prior entities gone.
#[test]
fn level_one_goal_advances_exactly_once() {
    let mut core = GameCore::new(SW, SH);
    assert_eq!(core.level.id, 1);
    assert_eq!(core.game.entities.len(), 7); // player + 4 boundaries + ledge + star

    let goal_center = Vec2 { x: (SW - 128) as i64, y: (SH - 192) as i64 };
    let threshold_x: i64 = 2 * 800 - 128 - 35; // screen_width - 64 - 17.5 pixels
    let mut advances = 0;
    let mut prior_handles: Vec<(usize, usize)> = Vec::new();
    let mut x: i64 = 132;

    for frame in 0..400 {
        core.phase_bind();
        if frame == 0 {
            for e in core.game.entities.iter() {
                prior_handles.push((e.body_handle.unwrap(), e.collider_handle.unwrap()));
            }
        }
        // fabricated engine outcome: the player's dynamic body drifts right
        // at the goal's height; the narrow phase reports the sensor overlap
        // once the ball's radius is reached.
        let mut updates = Vec::new();
        let mut intersections = Vec::new();
        let mut player = None;
        let mut star = None;
        for e in core.game.entities.iter() {
            if e.player.is_some() {
                player = e.collider_handle;
                if let Some(bh) = e.body_handle {
                    if matches!(core.phys.bodies[bh].as_ref().unwrap().kind, BodyKind::Dynamic) {
                        x += 5;
                        updates.push(BodyUpdate {
                            body: bh,
                            translation: Vec2 { x, y: goal_center.y },
                            linvel: Vec2 { x: 2000, y: 0 },
                        });
                    }
                }
            }
            if e.is_star {
                star = e.collider_handle;
            }
        }
        if let (Some(pch), Some(sch)) = (player, star) {
            if x > threshold_x && core.level.id == 1 {
                intersections.push(IntersectionRec { a: pch, b: sch });
            }
        }
        core.phase_step(&updates, intersections, Vec::new());
        core.phase_sync();
        if core.phase_update(FrameInput { axis: 1, jump_pressed: false }, SW, SH) {
            advances += 1;
        }
        core.phase_render();
        assert!(matches!(core.phase, Phase::Bind));
    }

    assert_eq!(advances, 1);
    assert_eq!(core.level.id, 2);
    assert_eq!(core.level.length, 2400);
    // all prior entities' objects are gone; their stale handles witness nothing
    for (bh, ch) in prior_handles.iter() {
        assert!(core.phys.bodies[*bh].is_none());
        assert!(core.phys.colliders[*ch].is_none());
        for (_, ch2) in prior_handles.iter() {
            assert!(!core.phys.intersection_pair(*ch, *ch2));
        }
    }
    // level two's geometry and a fresh player are live again
    assert_eq!(core.game.entities.len(), 9);
    assert!(core.game.entities.iter().any(|e| e.player.is_some()));
    assert!(core.game.entities.iter().any(|e| e.is_star));
}
