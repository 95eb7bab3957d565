//! Coordinate translation between gameplay space and simulation space.
//!
//! Gameplay space has its origin at the top-left of the screen with y growing
//! downward; distances are measured in integer *units*, where one unit is half
//! a pixel (so a radius of 17.5 pixels is the integer 35). Simulation space is
//! the physics engine's own frame: shapes are anchored at their center and
//! distances are meters. One meter is `UNITS_PER_METER` units, so a simulation
//! translation is carried here as an integer vector in units; the division by
//! the scale factor happens only at the unverified boundary that talks to the
//! engine.
//!
//! Cuboids are anchored by their top-left corner in gameplay space but by
//! their center in simulation space, so the translator applies a
//! shape-dependent anchor offset of half the cuboid's extent. Balls are
//! anchored by their center in both spaces and get no offset.

use vstd::prelude::*;

verus! {

/// Number of gameplay units (half-pixels) per simulation meter.
pub const UNITS_PER_METER: i64 = 200;

/// All gameplay and simulation coordinates are kept within this bound so
/// that the translator's additions and subtractions never overflow an `i64`.
pub const COORD_LIMIT: i64 = 0x1000_0000_0000;

/// A 2D vector of gameplay units.
#[derive(Clone, Copy, PartialEq, Eq, Structural, Debug)]
pub struct Vec2 {
    pub x: i64,
    pub y: i64,
}

/// A nonnegative 2D extent (width and height) in gameplay units.
#[derive(Clone, Copy, PartialEq, Eq, Structural, Debug)]
pub struct Extent {
    pub x: u32,
    pub y: u32,
}

/// Collision geometry in gameplay units: a ball with a radius or an
/// axis-aligned cuboid with a full width and height.
#[derive(Clone, Copy, PartialEq, Eq, Structural, Debug)]
pub enum Shape {
    Ball { r: u32 },
    Cuboid { size: Extent },
}

/// A point in gameplay space, owned by an entity.
#[derive(Clone, Copy, PartialEq, Eq, Structural, Debug)]
pub struct Position {
    pub value: Vec2,
}

pub open spec fn coord_ok(x: int) -> bool {
    -COORD_LIMIT <= x <= COORD_LIMIT
}

pub open spec fn vec_ok(v: Vec2) -> bool {
    coord_ok(v.x as int) && coord_ok(v.y as int)
}

/// Horizontal distance from a shape's gameplay anchor to its center.
pub open spec fn offset_x(s: Shape) -> int {
    match s {
        Shape::Ball { .. } => 0,
        Shape::Cuboid { size } => size.x as int / 2,
    }
}

/// Vertical distance from a shape's gameplay anchor to its center.
pub open spec fn offset_y(s: Shape) -> int {
    match s {
        Shape::Ball { .. } => 0,
        Shape::Cuboid { size } => size.y as int / 2,
    }
}

/// The simulation-space x coordinate of a shape anchored at `p`.
pub open spec fn sim_x(p: Vec2, s: Shape) -> int {
    p.x + offset_x(s)
}

/// The simulation-space y coordinate of a shape anchored at `p`.
pub open spec fn sim_y(p: Vec2, s: Shape) -> int {
    p.y + offset_y(s)
}

/// The gameplay-space x coordinate recovered from a simulation translation.
pub open spec fn game_x(v: Vec2, s: Shape) -> int {
    v.x - offset_x(s)
}

/// The gameplay-space y coordinate recovered from a simulation translation.
pub open spec fn game_y(v: Vec2, s: Shape) -> int {
    v.y - offset_y(s)
}

/// Half of a cuboid extent component, used as the anchor offset.
fn half_extent(e: u32) -> (r: u32)
    ensures
        r == e as int / 2,
{
    e / 2
}

/// A position whose simulation-space image under its shape's anchor offset
/// stays within the coordinate bound. This is the shape of position the
/// bridge keeps for every physics-bound entity: it is exactly what a
/// translation read back from a bounded simulation transform satisfies.
pub open spec fn pos_sim_ok(p: Vec2, s: Shape) -> bool {
    coord_ok(sim_x(p, s)) && coord_ok(sim_y(p, s))
}

/// Translate a gameplay-space position into the simulation's center-anchored
/// frame, applying the cuboid anchor offset.
pub fn to_simulation_space(p: &Position, s: &Shape) -> (r: Vec2)
    requires
        pos_sim_ok(p.value, *s),
    ensures
        r.x == sim_x(p.value, *s),
        r.y == sim_y(p.value, *s),
        vec_ok(r),
{
    match s {
        Shape::Cuboid { size } => Vec2 {
            x: p.value.x + half_extent(size.x) as i64,
            y: p.value.y + half_extent(size.y) as i64,
        },
        Shape::Ball { .. } => Vec2 { x: p.value.x, y: p.value.y },
    }
}

/// Translate a simulation-space translation back into the gameplay frame,
/// undoing the cuboid anchor offset.
pub fn from_simulation_space(v: &Vec2, s: &Shape) -> (r: Position)
    requires
        vec_ok(*v),
    ensures
        r.value.x == game_x(*v, *s),
        r.value.y == game_y(*v, *s),
        pos_sim_ok(r.value, *s),
{
    match s {
        Shape::Cuboid { size } => Position {
            value: Vec2 {
                x: v.x - half_extent(size.x) as i64,
                y: v.y - half_extent(size.y) as i64,
            },
        },
        Shape::Ball { .. } => Position { value: Vec2 { x: v.x, y: v.y } },
    }
}

/// Coordinate round-trip law: translating any gameplay position into
/// simulation space and back recovers the position exactly, for every shape.
pub proof fn lemma_coordinate_round_trip(p: Vec2, s: Shape, v: Vec2)
    requires
        v.x == sim_x(p, s),
        v.y == sim_y(p, s),
    ensures
        game_x(v, s) == p.x,
        game_y(v, s) == p.y,
{
}

} // verus!
