//! Integer model of the physics world.
//!
//! The real simulation engine owns body and collider tables addressed by
//! opaque handles; this module mirrors that state as growable slot arrays of
//! plain records. A handle is the index of a slot; a slot holds `Some` record
//! while the object is live and `None` once it has been removed, and slots are
//! never reused, so a handle stays meaningful for the queries below even after
//! its object is gone (a query on a dead handle reports no relation rather
//! than failing).
//!
//! Stepping is performed by the outside engine; its outcome — new body
//! transforms plus the narrow phase's contact and intersection findings — is
//! applied to this model by [`PhysicsWorld::apply_step`], and the rest of the
//! core is verified against whatever outcome was handed in.

use vstd::prelude::*;

use crate::coords::Shape;
use crate::coords::Vec2;
use crate::coords::vec_ok;

verus! {

/// Whether a body is immovable scenery or integrated by the simulation.
#[derive(Clone, Copy, PartialEq, Eq, Structural, Debug)]
pub enum BodyKind {
    Fixed,
    Dynamic,
}

/// A rigid body: its kind, its center-anchored simulation translation, and
/// its linear velocity in thousandths of a meter per second.
#[derive(Clone, Copy, PartialEq, Eq, Structural, Debug)]
pub struct BodyRec {
    pub kind: BodyKind,
    pub translation: Vec2,
    pub linvel: Vec2,
}

/// A collider: optional parent body, sensor flag, geometry, simulation
/// translation, and surface coefficients in thousandths.
#[derive(Clone, Copy, Debug)]
pub struct ColliderRec {
    pub parent: Option<usize>,
    pub sensor: bool,
    pub shape: Shape,
    pub translation: Vec2,
    pub friction_milli: u32,
    pub restitution_milli: u32,
}

/// A narrow-phase contact between two colliders; `active` says whether any
/// contact point is currently active rather than merely in proximity.
#[derive(Clone, Copy, PartialEq, Eq, Structural, Debug)]
pub struct ContactRec {
    pub a: usize,
    pub b: usize,
    pub active: bool,
}

/// A narrow-phase sensor overlap between two colliders.
#[derive(Clone, Copy, PartialEq, Eq, Structural, Debug)]
pub struct IntersectionRec {
    pub a: usize,
    pub b: usize,
}

/// One body's outcome of a simulation step.
#[derive(Clone, Copy, PartialEq, Eq, Structural, Debug)]
pub struct BodyUpdate {
    pub body: usize,
    pub translation: Vec2,
    pub linvel: Vec2,
}

/// The mirrored simulation state.
pub struct PhysicsWorld {
    pub bodies: Vec<Option<BodyRec>>,
    pub colliders: Vec<Option<ColliderRec>>,
    pub intersections: Vec<IntersectionRec>,
    pub contacts: Vec<ContactRec>,
}

pub open spec fn body_live(p: PhysicsWorld, h: int) -> bool {
    0 <= h < p.bodies@.len() && p.bodies@[h] is Some
}

pub open spec fn body_at(p: PhysicsWorld, h: int) -> BodyRec {
    p.bodies@[h]->Some_0
}

pub open spec fn collider_live(p: PhysicsWorld, h: int) -> bool {
    0 <= h < p.colliders@.len() && p.colliders@[h] is Some
}

pub open spec fn collider_at(p: PhysicsWorld, h: int) -> ColliderRec {
    p.colliders@[h]->Some_0
}

/// Whether the unordered pair `{a, b}` is the pair `{x, y}`.
pub open spec fn pair_matches(a: int, b: int, x: int, y: int) -> bool {
    (a == x && b == y) || (a == y && b == x)
}

/// Two live colliders currently overlap as sensors.
pub open spec fn spec_intersecting(p: PhysicsWorld, a: int, b: int) -> bool {
    collider_live(p, a) && collider_live(p, b) && exists|k: int|
        0 <= k < p.intersections@.len() && pair_matches(
            a,
            b,
            (#[trigger] p.intersections@[k]).a as int,
            p.intersections@[k].b as int,
        )
}

/// Two live colliders have a narrow-phase contact manifold.
pub open spec fn spec_in_contact(p: PhysicsWorld, a: int, b: int) -> bool {
    collider_live(p, a) && collider_live(p, b) && exists|k: int|
        0 <= k < p.contacts@.len() && pair_matches(
            a,
            b,
            (#[trigger] p.contacts@[k]).a as int,
            p.contacts@[k].b as int,
        )
}

/// Two live colliders have a contact manifold with an active contact point.
pub open spec fn spec_active_contact(p: PhysicsWorld, a: int, b: int) -> bool {
    collider_live(p, a) && collider_live(p, b) && exists|k: int|
        0 <= k < p.contacts@.len() && pair_matches(
            a,
            b,
            (#[trigger] p.contacts@[k]).a as int,
            p.contacts@[k].b as int,
        ) && p.contacts@[k].active
}

/// No two updates in a step outcome name the same body.
pub open spec fn distinct_updates(u: Seq<BodyUpdate>) -> bool {
    forall|i: int, j: int|
        0 <= i < j < u.len() ==> (#[trigger] u[i]).body != (#[trigger] u[j]).body
}

pub open spec fn updates_ok(u: Seq<BodyUpdate>) -> bool {
    forall|i: int|
        0 <= i < u.len() ==> vec_ok((#[trigger] u[i]).translation) && vec_ok(u[i].linvel)
}

/// Whether some update in the outcome names body `h`.
pub open spec fn has_update(u: Seq<BodyUpdate>, h: int) -> bool {
    exists|k: int| 0 <= k < u.len() && (#[trigger] u[k]).body == h
}

impl PhysicsWorld {
    /// Every live collider's parent, where it has one, is a live body: the
    /// collider set never references a freed body.
    pub open spec fn wf(self) -> bool {
        forall|i: int|
            0 <= i < self.colliders@.len() && (#[trigger] self.colliders@[i]) is Some
                && self.colliders@[i]->Some_0.parent is Some ==> body_live(
                self,
                self.colliders@[i]->Some_0.parent->Some_0 as int,
            )
    }

    /// Every live body's simulation translation stays within the coordinate
    /// bound, so reading it back through the inverse transform cannot
    /// overflow.
    pub open spec fn vals_ok(self) -> bool {
        forall|i: int|
            0 <= i < self.bodies@.len() && (#[trigger] self.bodies@[i]) is Some ==> vec_ok(
                self.bodies@[i]->Some_0.translation,
            )
    }

    pub fn new() -> (p: PhysicsWorld)
        ensures
            p.wf(),
            p.vals_ok(),
            p.bodies@.len() == 0,
            p.colliders@.len() == 0,
            p.intersections@.len() == 0,
            p.contacts@.len() == 0,
    {
        PhysicsWorld {
            bodies: Vec::new(),
            colliders: Vec::new(),
            intersections: Vec::new(),
            contacts: Vec::new(),
        }
    }

    /// Insert a body into a fresh slot and return its handle.
    pub fn insert_body(&mut self, kind: BodyKind, translation: Vec2) -> (h: usize)
        requires
            old(self).wf(),
            old(self).vals_ok(),
            vec_ok(translation),
        ensures
            final(self).wf(),
            final(self).vals_ok(),
            h == old(self).bodies@.len(),
            final(self).bodies@.len() == old(self).bodies@.len() + 1,
            body_live(*final(self), h as int),
            body_at(*final(self), h as int) == (BodyRec {
                kind,
                translation,
                linvel: Vec2 { x: 0, y: 0 },
            }),
            forall|i: int| 0 <= i < h ==> final(self).bodies@[i] == old(self).bodies@[i],
            final(self).colliders@ == old(self).colliders@,
            final(self).intersections@ == old(self).intersections@,
            final(self).contacts@ == old(self).contacts@,
    {
        let h = self.bodies.len();
        self.bodies.push(Some(BodyRec { kind, translation, linvel: Vec2 { x: 0, y: 0 } }));
        h
    }

    /// Insert a collider into a fresh slot, optionally attached to a live
    /// parent body, and return its handle.
    pub fn insert_collider(
        &mut self,
        shape: Shape,
        sensor: bool,
        friction_milli: u32,
        restitution_milli: u32,
        translation: Vec2,
        parent: Option<usize>,
    ) -> (h: usize)
        requires
            old(self).wf(),
            old(self).vals_ok(),
            parent is Some ==> body_live(*old(self), parent->Some_0 as int),
        ensures
            final(self).wf(),
            final(self).vals_ok(),
            h == old(self).colliders@.len(),
            final(self).colliders@.len() == old(self).colliders@.len() + 1,
            collider_live(*final(self), h as int),
            collider_at(*final(self), h as int) == (ColliderRec {
                parent,
                sensor,
                shape,
                translation,
                friction_milli,
                restitution_milli,
            }),
            forall|i: int| 0 <= i < h ==> final(self).colliders@[i] == old(self).colliders@[i],
            final(self).bodies@ == old(self).bodies@,
            final(self).intersections@ == old(self).intersections@,
            final(self).contacts@ == old(self).contacts@,
    {
        let h = self.colliders.len();
        self.colliders.push(
            Some(ColliderRec { parent, sensor, shape, translation, friction_milli, restitution_milli }),
        );
        h
    }

    /// Remove a collider; its slot goes dead and everything else is kept.
    pub fn remove_collider(&mut self, h: usize)
        requires
            old(self).wf(),
            old(self).vals_ok(),
            collider_live(*old(self), h as int),
        ensures
            final(self).wf(),
            final(self).vals_ok(),
            final(self).colliders@.len() == old(self).colliders@.len(),
            !collider_live(*final(self), h as int),
            forall|i: int|
                0 <= i < final(self).colliders@.len() && i != h ==> final(self).colliders@[i] == old(
                    self,
                ).colliders@[i],
            final(self).bodies@ == old(self).bodies@,
            final(self).intersections@ == old(self).intersections@,
            final(self).contacts@ == old(self).contacts@,
    {
        self.colliders.set(h, None);
    }

    /// Remove a body; as the engine does, every collider still attached to it
    /// is removed with it, so no collider is left referencing a freed body.
    pub fn remove_rigid_body(&mut self, h: usize)
        requires
            old(self).wf(),
            old(self).vals_ok(),
            body_live(*old(self), h as int),
        ensures
            final(self).wf(),
            final(self).vals_ok(),
            final(self).bodies@.len() == old(self).bodies@.len(),
            final(self).colliders@.len() == old(self).colliders@.len(),
            !body_live(*final(self), h as int),
            forall|i: int|
                0 <= i < final(self).bodies@.len() && i != h ==> final(self).bodies@[i] == old(self).bodies@[i],
            forall|i: int|
                0 <= i < final(self).colliders@.len()
                    ==> (#[trigger] final(self).colliders@[i]) == (if old(self).colliders@[i] is Some
                    && old(self).colliders@[i]->Some_0.parent == Some(h) {
                    None
                } else {
                    old(self).colliders@[i]
                }),
            final(self).intersections@ == old(self).intersections@,
            final(self).contacts@ == old(self).contacts@,
    {
        let mut i: usize = 0;
        while i < self.colliders.len()
            invariant
                i <= self.colliders@.len(),
                self.colliders@.len() == old(self).colliders@.len(),
                self.bodies@ == old(self).bodies@,
                self.intersections@ == old(self).intersections@,
                self.contacts@ == old(self).contacts@,
                forall|j: int|
                    0 <= j < i
                        ==> (#[trigger] self.colliders@[j]) == (if old(self).colliders@[j] is Some
                        && old(self).colliders@[j]->Some_0.parent == Some(h) {
                        None
                    } else {
                        old(self).colliders@[j]
                    }),
                forall|j: int|
                    i <= j < self.colliders@.len() ==> self.colliders@[j] == old(
                        self,
                    ).colliders@[j],
            decreases self.colliders@.len() - i,
        {
            let drop_it = match &self.colliders[i] {
                Some(c) => match c.parent {
                    Some(p) => p == h,
                    None => false,
                },
                None => false,
            };
            if drop_it {
                self.colliders.set(i, None);
            }
            i += 1;
        }
        self.bodies.set(h, None);
    }

    /// Read a live body's simulation translation.
    pub fn body_translation(&self, h: usize) -> (r: Vec2)
        requires
            body_live(*self, h as int),
        ensures
            r == body_at(*self, h as int).translation,
    {
        match &self.bodies[h] {
            Some(b) => b.translation,
            None => Vec2 { x: 0, y: 0 },
        }
    }

    /// Read a live body's linear velocity.
    pub fn body_linvel(&self, h: usize) -> (r: Vec2)
        requires
            body_live(*self, h as int),
        ensures
            r == body_at(*self, h as int).linvel,
    {
        match &self.bodies[h] {
            Some(b) => b.linvel,
            None => Vec2 { x: 0, y: 0 },
        }
    }

    /// Overwrite a live body's simulation translation, waking nothing else.
    pub fn set_body_translation(&mut self, h: usize, t: Vec2)
        requires
            old(self).wf(),
            old(self).vals_ok(),
            body_live(*old(self), h as int),
            vec_ok(t),
        ensures
            final(self).wf(),
            final(self).vals_ok(),
            final(self).bodies@.len() == old(self).bodies@.len(),
            body_live(*final(self), h as int),
            body_at(*final(self), h as int) == (BodyRec {
                translation: t,
                ..body_at(*old(self), h as int)
            }),
            forall|i: int|
                0 <= i < final(self).bodies@.len() && i != h ==> final(self).bodies@[i] == old(self).bodies@[i],
            final(self).colliders@ == old(self).colliders@,
            final(self).intersections@ == old(self).intersections@,
            final(self).contacts@ == old(self).contacts@,
    {
        let rec = match &self.bodies[h] {
            Some(b) => BodyRec { kind: b.kind, translation: t, linvel: b.linvel },
            None => BodyRec { kind: BodyKind::Fixed, translation: t, linvel: Vec2 { x: 0, y: 0 } },
        };
        self.bodies.set(h, Some(rec));
    }

    /// Overwrite a live body's linear velocity.
    pub fn set_body_linvel(&mut self, h: usize, v: Vec2)
        requires
            old(self).wf(),
            old(self).vals_ok(),
            body_live(*old(self), h as int),
        ensures
            final(self).wf(),
            final(self).vals_ok(),
            final(self).bodies@.len() == old(self).bodies@.len(),
            body_live(*final(self), h as int),
            body_at(*final(self), h as int) == (BodyRec { linvel: v, ..body_at(*old(self), h as int) }),
            forall|i: int|
                0 <= i < final(self).bodies@.len() && i != h ==> final(self).bodies@[i] == old(self).bodies@[i],
            final(self).colliders@ == old(self).colliders@,
            final(self).intersections@ == old(self).intersections@,
            final(self).contacts@ == old(self).contacts@,
    {
        let rec = match &self.bodies[h] {
            Some(b) => BodyRec { kind: b.kind, translation: b.translation, linvel: v },
            None => BodyRec { kind: BodyKind::Fixed, translation: v, linvel: v },
        };
        self.bodies.set(h, Some(rec));
    }

    /// Whether two collider handles currently overlap as sensors. A handle
    /// whose object was removed, or a pair the narrow phase never related,
    /// reports `false`: absence of a relation is not an error.
    pub fn intersection_pair(&self, a: usize, b: usize) -> (r: bool)
        ensures
            r == spec_intersecting(*self, a as int, b as int),
    {
        if !(a < self.colliders.len() && b < self.colliders.len()) {
            return false;
        }
        let a_live = self.colliders[a].is_some();
        let b_live = self.colliders[b].is_some();
        if !(a_live && b_live) {
            return false;
        }
        let mut k: usize = 0;
        while k < self.intersections.len()
            invariant
                k <= self.intersections@.len(),
                collider_live(*self, a as int),
                collider_live(*self, b as int),
                forall|j: int|
                    0 <= j < k ==> !pair_matches(
                        a as int,
                        b as int,
                        (#[trigger] self.intersections@[j]).a as int,
                        self.intersections@[j].b as int,
                    ),
            decreases self.intersections@.len() - k,
        {
            let rec = self.intersections[k];
            if (rec.a == a && rec.b == b) || (rec.a == b && rec.b == a) {
                return true;
            }
            k += 1;
        }
        false
    }

    /// Whether two collider handles currently have a contact manifold, and if
    /// so whether any of its contact points is active. Dead handles and
    /// unrelated pairs report `None`.
    pub fn contact_pair(&self, a: usize, b: usize) -> (r: Option<bool>)
        ensures
            r is Some <==> spec_in_contact(*self, a as int, b as int),
            r == Some(true) <==> spec_active_contact(*self, a as int, b as int),
    {
        if !(a < self.colliders.len() && b < self.colliders.len()) {
            return None;
        }
        let a_live = self.colliders[a].is_some();
        let b_live = self.colliders[b].is_some();
        if !(a_live && b_live) {
            return None;
        }
        let mut k: usize = 0;
        let mut found = false;
        let mut active = false;
        while k < self.contacts.len()
            invariant
                k <= self.contacts@.len(),
                collider_live(*self, a as int),
                collider_live(*self, b as int),
                found <==> exists|j: int|
                    0 <= j < k && pair_matches(
                        a as int,
                        b as int,
                        (#[trigger] self.contacts@[j]).a as int,
                        self.contacts@[j].b as int,
                    ),
                active <==> exists|j: int|
                    0 <= j < k && pair_matches(
                        a as int,
                        b as int,
                        (#[trigger] self.contacts@[j]).a as int,
                        self.contacts@[j].b as int,
                    ) && self.contacts@[j].active,
            decreases self.contacts@.len() - k,
        {
            let rec = self.contacts[k];
            if (rec.a == a && rec.b == b) || (rec.a == b && rec.b == a) {
                found = true;
                if rec.active {
                    active = true;
                }
            }
            k += 1;
        }
        if found {
            Some(active)
        } else {
            None
        }
    }

    /// All contact records involving the given collider handle, in the order
    /// the narrow phase reported them.
    pub fn get_contacts(&self, h: usize) -> (r: Vec<ContactRec>)
        ensures
            forall|k: int|
                0 <= k < r@.len() ==> ((#[trigger] r@[k]).a == h || r@[k].b == h)
                    && self.contacts@.contains(r@[k]),
            forall|j: int|
                0 <= j < self.contacts@.len() && ((#[trigger] self.contacts@[j]).a == h
                    || self.contacts@[j].b == h) ==> r@.contains(self.contacts@[j]),
    {
        let mut r: Vec<ContactRec> = Vec::new();
        let mut j: usize = 0;
        while j < self.contacts.len()
            invariant
                j <= self.contacts@.len(),
                forall|k: int|
                    0 <= k < r@.len() ==> ((#[trigger] r@[k]).a == h || r@[k].b == h)
                        && self.contacts@.contains(r@[k]),
                forall|i: int|
                    0 <= i < j && ((#[trigger] self.contacts@[i]).a == h || self.contacts@[i].b
                        == h) ==> r@.contains(self.contacts@[i]),
            decreases self.contacts@.len() - j,
        {
            let c = self.contacts[j];
            if c.a == h || c.b == h {
                let ghost r_old = r@;
                r.push(c);
                proof {
                    assert(self.contacts@[j as int] == c);
                    assert(self.contacts@.contains(c)) by {
                        assert(self.contacts@[j as int] == c);
                    }
                    assert(r@.contains(c)) by {
                        assert(r@[r@.len() - 1] == c);
                    }
                    assert forall|x: ContactRec| r_old.contains(x) implies r@.contains(x) by {
                        let k = choose|k: int| 0 <= k < r_old.len() && r_old[k] == x;
                        assert(r@[k] == x);
                    }
                }
            }
            j += 1;
        }
        r
    }

    /// All intersection records involving the given collider handle, in the
    /// order the narrow phase reported them.
    pub fn get_intersections(&self, h: usize) -> (r: Vec<IntersectionRec>)
        ensures
            forall|k: int|
                0 <= k < r@.len() ==> ((#[trigger] r@[k]).a == h || r@[k].b == h)
                    && self.intersections@.contains(r@[k]),
            forall|j: int|
                0 <= j < self.intersections@.len() && ((#[trigger] self.intersections@[j]).a == h
                    || self.intersections@[j].b == h) ==> r@.contains(self.intersections@[j]),
    {
        let mut r: Vec<IntersectionRec> = Vec::new();
        let mut j: usize = 0;
        while j < self.intersections.len()
            invariant
                j <= self.intersections@.len(),
                forall|k: int|
                    0 <= k < r@.len() ==> ((#[trigger] r@[k]).a == h || r@[k].b == h)
                        && self.intersections@.contains(r@[k]),
                forall|i: int|
                    0 <= i < j && ((#[trigger] self.intersections@[i]).a == h
                        || self.intersections@[i].b == h) ==> r@.contains(self.intersections@[i]),
            decreases self.intersections@.len() - j,
        {
            let c = self.intersections[j];
            if c.a == h || c.b == h {
                let ghost r_old = r@;
                r.push(c);
                proof {
                    assert(self.intersections@[j as int] == c);
                    assert(self.intersections@.contains(c)) by {
                        assert(self.intersections@[j as int] == c);
                    }
                    assert(r@.contains(c)) by {
                        assert(r@[r@.len() - 1] == c);
                    }
                    assert forall|x: IntersectionRec| r_old.contains(x) implies r@.contains(x) by {
                        let k = choose|k: int| 0 <= k < r_old.len() && r_old[k] == x;
                        assert(r@[k] == x);
                    }
                }
            }
            j += 1;
        }
        r
    }

    /// Apply one step's outcome from the simulation engine: each named live
    /// body takes its new transform and velocity, every other body is kept,
    /// and the narrow-phase findings are replaced wholesale.
    pub fn apply_step(
        &mut self,
        updates: &Vec<BodyUpdate>,
        intersections: Vec<IntersectionRec>,
        contacts: Vec<ContactRec>,
    )
        requires
            old(self).wf(),
            old(self).vals_ok(),
            distinct_updates(updates@),
            updates_ok(updates@),
        ensures
            final(self).wf(),
            final(self).vals_ok(),
            final(self).bodies@.len() == old(self).bodies@.len(),
            forall|i: int| body_live(*final(self), i) <==> body_live(*old(self), i),
            forall|k: int|
                0 <= k < updates@.len() && body_live(*old(self), (#[trigger] updates@[k]).body as int)
                    ==> body_at(*final(self), updates@[k].body as int) == (BodyRec {
                    kind: body_at(*old(self), updates@[k].body as int).kind,
                    translation: updates@[k].translation,
                    linvel: updates@[k].linvel,
                }),
            forall|i: int|
                0 <= i < final(self).bodies@.len() && !has_update(updates@, i) ==> final(self).bodies@[i] == old(
                    self,
                ).bodies@[i],
            final(self).colliders@ == old(self).colliders@,
            final(self).intersections@ == intersections@,
            final(self).contacts@ == contacts@,
    {
        let mut k: usize = 0;
        while k < updates.len()
            invariant
                k <= updates@.len(),
                distinct_updates(updates@),
                self.wf(),
                self.bodies@.len() == old(self).bodies@.len(),
                self.colliders@ == old(self).colliders@,
                self.intersections@ == old(self).intersections@,
                self.contacts@ == old(self).contacts@,
                forall|i: int| body_live(*self, i) <==> body_live(*old(self), i),
                forall|j: int|
                    0 <= j < k && body_live(*old(self), (#[trigger] updates@[j]).body as int)
                        ==> body_at(*self, updates@[j].body as int) == (BodyRec {
                        kind: body_at(*old(self), updates@[j].body as int).kind,
                        translation: updates@[j].translation,
                        linvel: updates@[j].linvel,
                    }),
                forall|i: int|
                    0 <= i < self.bodies@.len() && !(exists|j: int|
                        0 <= j < k && (#[trigger] updates@[j]).body == i) ==> self.bodies@[i]
                        == old(self).bodies@[i],
            decreases updates@.len() - k,
        {
            let u = updates[k];
            if u.body < self.bodies.len() {
                let rec = match &self.bodies[u.body] {
                    Some(b) => Some(
                        BodyRec { kind: b.kind, translation: u.translation, linvel: u.linvel },
                    ),
                    None => None,
                };
                if rec.is_some() {
                    self.bodies.set(u.body, rec);
                }
            }
            k += 1;
        }
        self.intersections = intersections;
        self.contacts = contacts;
    }
}

} // verus!
