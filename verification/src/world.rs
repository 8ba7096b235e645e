//! The physics world adapter, modeled.
//!
//! The external engine owns collision shapes and constraint solving; this
//! model keeps exactly the bookkeeping the orchestration core relies on:
//! bodies with pose and velocity, colliders attached to bodies, constant
//! acceleration force generators, gravity, and a fixed timestep. `step`
//! integrates velocities and translations semi-implicitly and clamps them
//! into the world bounds; orientation integration stays with the engine.
//!
//! Handles are opaque integers; a handle that resolves to nothing yields
//! `None`, never a panic, so stale handles degrade to no-ops upstream.

use vstd::prelude::*;
use crate::fx::{FX_ONE, POS_LIM, VEL_LIM, ACC_LIM, clamp, clamp_s, fx_mul_s};
use crate::vec3::{Vec3, Pose, V3, plus_s, neg_s, scale_by_s};

verus! {

/// Bound on a collider's vertical half-extent.
pub const HALF_LIM: i64 = 1048576;

/// A rigid body: pose, velocities, and whether forces act on it.
#[derive(Clone, Copy, Debug, PartialEq, Eq, Structural)]
pub struct RigidBody {
    pub handle: u64,
    pub pose: Pose,
    pub linvel: Vec3,
    pub angvel: Vec3,
    /// Dynamic bodies feel gravity and force generators; kinematic ones
    /// (the self body) move only by their commanded velocity.
    pub dynamic: bool,
}

/// A collider attached to a body; the shape itself stays with the engine,
/// only the vertical half-extent is kept (it decides the standing height).
#[derive(Clone, Copy, Debug, PartialEq, Eq, Structural)]
pub struct Collider {
    pub handle: u64,
    pub body: u64,
    pub half_height: i64,
}

/// A constant acceleration applied to one body, as handed to
/// `MyWorld::add_force_generator`.
#[derive(Clone, Copy, Debug, PartialEq, Eq, Structural)]
pub struct ConstantAcceleration {
    pub acceleration: Vec3,
    pub body: u64,
}

/// A registered force generator.
#[derive(Clone, Copy, Debug, PartialEq, Eq, Structural)]
pub struct ForceGenEntry {
    pub handle: u64,
    pub acceleration: Vec3,
    pub body: u64,
}

/// The modeled physics world.
#[derive(Clone, Debug, PartialEq)]
pub struct MyWorld {
    pub bodies: Vec<RigidBody>,
    pub colliders: Vec<Collider>,
    pub force_generators: Vec<ForceGenEntry>,
    pub gravity: Vec3,
    pub timestep: i64,
    pub next_body_handle: u64,
    pub next_collider_handle: u64,
    pub next_force_handle: u64,
}

/// Componentwise clamp into `[-lim, lim]`.
pub open spec fn clamp3_s(v: V3, lim: int) -> V3 {
    V3 { x: clamp_s(v.x, lim), y: clamp_s(v.y, lim), z: clamp_s(v.z, lim) }
}

/// The extra acceleration force generators contribute to body `h`: the
/// acceleration of the generator aimed at it, or zero. Well defined because
/// a well-formed world has at most one generator per body.
pub open spec fn extra_accel_s(forces: Seq<ForceGenEntry>, h: u64) -> V3 {
    if exists|j: int| 0 <= j < forces.len() && forces[j].body == h {
        let j = choose|j: int| 0 <= j < forces.len() && forces[j].body == h;
        forces[j].acceleration@
    } else {
        V3 { x: 0, y: 0, z: 0 }
    }
}

/// The linear velocity of `b` after one step under gravity `g`.
pub open spec fn step_vel_s(b: RigidBody, g: V3, forces: Seq<ForceGenEntry>, ts: int) -> V3 {
    if b.dynamic {
        clamp3_s(
            plus_s(b.linvel@, scale_by_s(plus_s(g, extra_accel_s(forces, b.handle)), ts)),
            VEL_LIM as int,
        )
    } else {
        b.linvel@
    }
}

/// The translation of `b` after one step.
pub open spec fn step_pos_s(b: RigidBody, g: V3, forces: Seq<ForceGenEntry>, ts: int) -> V3 {
    clamp3_s(
        plus_s(b.pose.translation@, scale_by_s(step_vel_s(b, g, forces, ts), ts)),
        POS_LIM as int,
    )
}

impl MyWorld {
    pub open spec fn body_ok(b: RigidBody) -> bool {
        &&& b.pose.bounded(POS_LIM as int, FX_ONE as int)
        &&& b.linvel.bounded(VEL_LIM as int)
        &&& b.angvel.bounded(VEL_LIM as int)
    }

    /// Handles unique and below their counters, one force generator per
    /// body at most, and every stored quantity within the world bounds.
    pub open spec fn wf(self) -> bool {
        &&& forall|i: int, j: int|
            0 <= i < j < self.bodies@.len() ==> self.bodies@[i].handle != self.bodies@[j].handle
        &&& forall|i: int|
            0 <= i < self.bodies@.len() ==> self.bodies@[i].handle < self.next_body_handle
        &&& forall|i: int| 0 <= i < self.bodies@.len() ==> Self::body_ok(#[trigger] self.bodies@[i])
        &&& forall|i: int, j: int|
            0 <= i < j < self.colliders@.len() ==> self.colliders@[i].handle
                != self.colliders@[j].handle
        &&& forall|i: int|
            0 <= i < self.colliders@.len() ==> self.colliders@[i].handle
                < self.next_collider_handle
        &&& forall|i: int|
            0 <= i < self.colliders@.len() ==> 0 <= #[trigger] self.colliders@[i].half_height
                <= HALF_LIM
        &&& forall|i: int, j: int|
            0 <= i < j < self.force_generators@.len() ==> self.force_generators@[i].handle
                != self.force_generators@[j].handle
        &&& forall|i: int, j: int|
            0 <= i < j < self.force_generators@.len() ==> self.force_generators@[i].body
                != self.force_generators@[j].body
        &&& forall|i: int|
            0 <= i < self.force_generators@.len() ==> self.force_generators@[i].handle
                < self.next_force_handle
        &&& forall|i: int|
            0 <= i < self.force_generators@.len()
                ==> (#[trigger] self.force_generators@[i].acceleration).bounded(ACC_LIM as int)
        &&& self.gravity.bounded(ACC_LIM as int)
        &&& 0 < self.timestep <= FX_ONE
    }

    pub open spec fn has_body(self, h: u64) -> bool {
        exists|i: int| 0 <= i < self.bodies@.len() && self.bodies@[i].handle == h
    }

    pub open spec fn body_idx(self, h: u64) -> int {
        choose|i: int| 0 <= i < self.bodies@.len() && self.bodies@[i].handle == h
    }

    pub open spec fn body(self, h: u64) -> RigidBody
        recommends
            self.has_body(h),
    {
        self.bodies@[self.body_idx(h)]
    }

    pub open spec fn has_collider(self, h: u64) -> bool {
        exists|i: int| 0 <= i < self.colliders@.len() && self.colliders@[i].handle == h
    }

    pub open spec fn collider_idx(self, h: u64) -> int {
        choose|i: int| 0 <= i < self.colliders@.len() && self.colliders@[i].handle == h
    }

    pub open spec fn collider(self, h: u64) -> Collider
        recommends
            self.has_collider(h),
    {
        self.colliders@[self.collider_idx(h)]
    }

    pub open spec fn has_force(self, h: u64) -> bool {
        exists|i: int|
            0 <= i < self.force_generators@.len() && self.force_generators@[i].handle == h
    }

    pub open spec fn force_idx(self, h: u64) -> int {
        choose|i: int|
            0 <= i < self.force_generators@.len() && self.force_generators@[i].handle == h
    }

    pub open spec fn has_force_for(self, body: u64) -> bool {
        exists|i: int|
            0 <= i < self.force_generators@.len() && self.force_generators@[i].body == body
    }

    /// The number of live force generators.
    pub open spec fn force_count(self) -> int {
        self.force_generators@.len() as int
    }

    /// The handle that stands for the immovable ground; no rigid body ever
    /// carries it.
    pub fn ground() -> (r: u64)
        ensures
            r == 0,
    {
        0
    }

    pub fn timestep(&self) -> (r: i64)
        ensures
            r == self.timestep,
    {
        self.timestep
    }

    pub fn gravity(&self) -> (r: Vec3)
        ensures
            r == self.gravity,
    {
        self.gravity
    }

    /// Replaces gravity.
    pub fn set_gravity(&mut self, g: Vec3)
        requires
            old(self).wf(),
            g.bounded(ACC_LIM as int),
        ensures
            final(self).wf(),
            *final(self) === (MyWorld { gravity: g, ..*old(self) }),
    {
        self.gravity = g;
    }

    /// Registers a body at the given pose with zero velocity.
    pub fn add_rigid_body(&mut self, pose: Pose, dynamic: bool) -> (h: u64)
        requires
            old(self).wf(),
            pose.bounded(POS_LIM as int, FX_ONE as int),
            old(self).next_body_handle < u64::MAX,
        ensures
            final(self).wf(),
            h == old(self).next_body_handle,
            final(self).bodies@ === old(self).bodies@.push(
                RigidBody {
                    handle: h,
                    pose,
                    linvel: Vec3 { x: 0, y: 0, z: 0 },
                    angvel: Vec3 { x: 0, y: 0, z: 0 },
                    dynamic,
                },
            ),
            final(self).next_body_handle == h + 1,
            final(self).colliders == old(self).colliders,
            final(self).force_generators == old(self).force_generators,
            final(self).gravity == old(self).gravity,
            final(self).timestep == old(self).timestep,
            final(self).next_collider_handle == old(self).next_collider_handle,
            final(self).next_force_handle == old(self).next_force_handle,
            final(self).has_body(h),
            final(self).body(h) === (RigidBody {
                handle: h,
                pose,
                linvel: Vec3 { x: 0, y: 0, z: 0 },
                angvel: Vec3 { x: 0, y: 0, z: 0 },
                dynamic,
            }),
    {
        let h: u64 = self.next_body_handle;
        let b: RigidBody = RigidBody {
            handle: h,
            pose,
            linvel: Vec3 { x: 0, y: 0, z: 0 },
            angvel: Vec3 { x: 0, y: 0, z: 0 },
            dynamic,
        };
        self.bodies.push(b);
        self.next_body_handle = h + 1;
        proof {
            let n: int = self.bodies@.len() - 1;
            let w: int = self.body_idx(h);
            assert(self.bodies@[n].handle == h);
            assert(0 <= w < self.bodies@.len() && self.bodies@[w].handle == h);
            assert(w == n);
        }
        h
    }

    /// Attaches a collider to a body handle (the engine owns the shape; the
    /// model keeps the vertical half-extent).
    pub fn add_collider(&mut self, body: u64, half_height: i64) -> (h: u64)
        requires
            old(self).wf(),
            0 <= half_height <= HALF_LIM,
            old(self).next_collider_handle < u64::MAX,
        ensures
            final(self).wf(),
            h == old(self).next_collider_handle,
            final(self).colliders@ === old(self).colliders@.push(
                Collider { handle: h, body, half_height },
            ),
            final(self).next_collider_handle == h + 1,
            final(self).bodies == old(self).bodies,
            final(self).force_generators == old(self).force_generators,
            final(self).gravity == old(self).gravity,
            final(self).timestep == old(self).timestep,
            final(self).next_body_handle == old(self).next_body_handle,
            final(self).next_force_handle == old(self).next_force_handle,
            final(self).has_collider(h),
            final(self).collider(h) === (Collider { handle: h, body, half_height }),
    {
        let h: u64 = self.next_collider_handle;
        self.colliders.push(Collider { handle: h, body, half_height });
        self.next_collider_handle = h + 1;
        proof {
            let n: int = self.colliders@.len() - 1;
            let w: int = self.collider_idx(h);
            assert(self.colliders@[n].handle == h);
            assert(0 <= w < self.colliders@.len() && self.colliders@[w].handle == h);
            assert(w == n);
        }
        h
    }

    /// Detaches a collider; reports whether the handle was live.
    pub fn remove_collider(&mut self, h: u64) -> (r: bool)
        requires
            old(self).wf(),
        ensures
            final(self).wf(),
            r == old(self).has_collider(h),
            !r ==> *final(self) === *old(self),
            r ==> *final(self) === (MyWorld {
                colliders: final(self).colliders,
                ..*old(self)
            }),
            r ==> final(self).colliders@ === old(self).colliders@.remove(
                old(self).collider_idx(h),
            ),
            !final(self).has_collider(h),
    {
        let mut i: usize = 0;
        while i < self.colliders.len()
            invariant
                *self === *old(self),
                self.wf(),
                i <= self.colliders@.len(),
                forall|j: int| 0 <= j < i ==> self.colliders@[j].handle != h,
            decreases self.colliders@.len() - i,
        {
            if self.colliders[i].handle == h {
                proof {
                    let w: int = self.collider_idx(h);
                    assert(0 <= w < self.colliders@.len() && self.colliders@[w].handle == h);
                    assert(w == i as int);
                }
                self.colliders.remove(i);
                proof {
                    old(self).colliders@.remove_ensures(i as int);
                    if self.has_collider(h) {
                        let w2: int = self.collider_idx(h);
                        assert(0 <= w2 < self.colliders@.len() && self.colliders@[w2].handle
                            == h);
                        if w2 >= i as int {
                            assert(old(self).colliders@[w2 + 1].handle == h);
                        }
                        assert(false);
                    }
                }
                return true;
            }
            i = i + 1;
        }
        false
    }

    /// The handle of the body a collider is attached to, or `None` for a
    /// stale handle; the ground pseudo-body resolves like a stale body.
    pub fn collider_body_handle(&self, collider: u64) -> (r: Option<u64>)
        requires
            self.wf(),
        ensures
            match r {
                Some(b) => self.has_collider(collider) && self.collider(collider).body == b,
                None => !self.has_collider(collider),
            },
    {
        let mut i: usize = 0;
        while i < self.colliders.len()
            invariant
                self.wf(),
                i <= self.colliders@.len(),
                forall|j: int| 0 <= j < i ==> self.colliders@[j].handle != collider,
            decreases self.colliders@.len() - i,
        {
            if self.colliders[i].handle == collider {
                proof {
                    let w: int = self.collider_idx(collider);
                    assert(0 <= w < self.colliders@.len() && self.colliders@[w].handle
                        == collider);
                    assert(w == i as int);
                }
                return Some(self.colliders[i].body);
            }
            i = i + 1;
        }
        None
    }

    /// Index of the body with this handle.
    fn body_index(&self, h: u64) -> (r: Option<usize>)
        requires
            self.wf(),
        ensures
            match r {
                Some(i) => i < self.bodies@.len() && self.bodies@[i as int].handle == h
                    && i as int == self.body_idx(h),
                None => !self.has_body(h),
            },
    {
        let mut i: usize = 0;
        while i < self.bodies.len()
            invariant
                self.wf(),
                i <= self.bodies@.len(),
                forall|j: int| 0 <= j < i ==> self.bodies@[j].handle != h,
            decreases self.bodies@.len() - i,
        {
            if self.bodies[i].handle == h {
                proof {
                    let w: int = self.body_idx(h);
                    assert(0 <= w < self.bodies@.len() && self.bodies@[w].handle == h);
                    assert(w == i as int);
                }
                return Some(i);
            }
            i = i + 1;
        }
        None
    }

    /// The pose of a live body, or `None` for a stale handle.
    pub fn body_pose(&self, h: u64) -> (r: Option<Pose>)
        requires
            self.wf(),
        ensures
            match r {
                Some(p) => self.has_body(h) && p === self.body(h).pose,
                None => !self.has_body(h),
            },
    {
        match self.body_index(h) {
            Some(i) => Some(self.bodies[i].pose),
            None => None,
        }
    }

    /// The linear velocity of a live body.
    pub fn body_linear_velocity(&self, h: u64) -> (r: Option<Vec3>)
        requires
            self.wf(),
        ensures
            match r {
                Some(v) => self.has_body(h) && v === self.body(h).linvel,
                None => !self.has_body(h),
            },
    {
        match self.body_index(h) {
            Some(i) => Some(self.bodies[i].linvel),
            None => None,
        }
    }

    /// Overwrites the linear velocity of a live body; a stale handle is a
    /// no-op. Reports whether the body was live.
    pub fn set_linear_velocity(&mut self, h: u64, v: Vec3) -> (r: bool)
        requires
            old(self).wf(),
            v.bounded(VEL_LIM as int),
        ensures
            final(self).wf(),
            r == old(self).has_body(h),
            !r ==> *final(self) === *old(self),
            r ==> *final(self) === (MyWorld { bodies: final(self).bodies, ..*old(self) }),
            r ==> final(self).bodies@ === old(self).bodies@.update(
                old(self).body_idx(h),
                RigidBody { linvel: v, ..old(self).body(h) },
            ),
    {
        match self.body_index(h) {
            Some(i) => {
                let updated: RigidBody = RigidBody { linvel: v, ..self.bodies[i] };
                self.bodies.set(i, updated);
                true
            },
            None => false,
        }
    }

    /// Overwrites the angular velocity of a live body; a stale handle is a
    /// no-op. Reports whether the body was live.
    pub fn set_angular_velocity(&mut self, h: u64, v: Vec3) -> (r: bool)
        requires
            old(self).wf(),
            v.bounded(VEL_LIM as int),
        ensures
            final(self).wf(),
            r == old(self).has_body(h),
            !r ==> *final(self) === *old(self),
            r ==> *final(self) === (MyWorld { bodies: final(self).bodies, ..*old(self) }),
            r ==> final(self).bodies@ === old(self).bodies@.update(
                old(self).body_idx(h),
                RigidBody { angvel: v, ..old(self).body(h) },
            ),
    {
        match self.body_index(h) {
            Some(i) => {
                let updated: RigidBody = RigidBody { angvel: v, ..self.bodies[i] };
                self.bodies.set(i, updated);
                true
            },
            None => false,
        }
    }

    /// The world-space top of a collider: its body's height plus the
    /// half-extent, clamped into the world bound.
    pub fn collider_top(&self, collider: u64) -> (r: Option<i64>)
        requires
            self.wf(),
        ensures
            match r {
                Some(t) => self.has_collider(collider) && self.has_body(
                    self.collider(collider).body,
                ) && t == clamp_s(
                    self.body(self.collider(collider).body).pose.translation@.y + self.collider(
                        collider,
                    ).half_height,
                    POS_LIM as int,
                ),
                None => !self.has_collider(collider) || !self.has_body(
                    self.collider(collider).body,
                ),
            },
    {
        let body: Option<u64> = self.collider_body_handle(collider);
        match body {
            Some(b) => {
                match self.body_index(b) {
                    Some(i) => {
                        let half: i64 = self.collider_half(collider);
                        Some(clamp(self.bodies[i].pose.translation.y + half, POS_LIM))
                    },
                    None => None,
                }
            },
            None => None,
        }
    }

    /// The stored vertical half-extent of a live collider (zero otherwise).
    fn collider_half(&self, collider: u64) -> (r: i64)
        requires
            self.wf(),
        ensures
            self.has_collider(collider) ==> r == self.collider(collider).half_height,
            !self.has_collider(collider) ==> r == 0,
            0 <= r <= HALF_LIM,
    {
        let mut i: usize = 0;
        while i < self.colliders.len()
            invariant
                self.wf(),
                i <= self.colliders@.len(),
                forall|j: int| 0 <= j < i ==> self.colliders@[j].handle != collider,
            decreases self.colliders@.len() - i,
        {
            if self.colliders[i].handle == collider {
                proof {
                    let w: int = self.collider_idx(collider);
                    assert(0 <= w < self.colliders@.len() && self.colliders@[w].handle
                        == collider);
                    assert(w == i as int);
                }
                return self.colliders[i].half_height;
            }
            i = i + 1;
        }
        0
    }

    /// Registers a force generator for a body that has none yet; the handle
    /// identifies it for later removal.
    pub fn add_force_generator(&mut self, force_generator: ConstantAcceleration) -> (h: u64)
        requires
            old(self).wf(),
            force_generator.acceleration.bounded(ACC_LIM as int),
            !old(self).has_force_for(force_generator.body),
            old(self).next_force_handle < u64::MAX,
        ensures
            final(self).wf(),
            h == old(self).next_force_handle,
            final(self).force_generators@ === old(self).force_generators@.push(
                ForceGenEntry {
                    handle: h,
                    acceleration: force_generator.acceleration,
                    body: force_generator.body,
                },
            ),
            final(self).next_force_handle == h + 1,
            final(self).bodies == old(self).bodies,
            final(self).colliders == old(self).colliders,
            final(self).gravity == old(self).gravity,
            final(self).timestep == old(self).timestep,
            final(self).next_body_handle == old(self).next_body_handle,
            final(self).next_collider_handle == old(self).next_collider_handle,
            final(self).has_force(h),
            final(self).force_count() == old(self).force_count() + 1,
    {
        let h: u64 = self.next_force_handle;
        self.force_generators.push(
            ForceGenEntry {
                handle: h,
                acceleration: force_generator.acceleration,
                body: force_generator.body,
            },
        );
        self.next_force_handle = h + 1;
        proof {
            let n: int = self.force_generators@.len() - 1;
            assert(self.force_generators@[n].handle == h);
        }
        h
    }

    /// Removes a force generator; reports whether the handle was live.
    pub fn remove_force_generator(&mut self, h: u64) -> (r: bool)
        requires
            old(self).wf(),
        ensures
            final(self).wf(),
            r == old(self).has_force(h),
            !r ==> *final(self) === *old(self),
            r ==> *final(self) === (MyWorld {
                force_generators: final(self).force_generators,
                ..*old(self)
            }),
            r ==> final(self).force_generators@ === old(self).force_generators@.remove(
                old(self).force_idx(h),
            ),
            r ==> final(self).force_count() == old(self).force_count() - 1,
            !final(self).has_force(h),
    {
        let mut i: usize = 0;
        while i < self.force_generators.len()
            invariant
                *self === *old(self),
                self.wf(),
                i <= self.force_generators@.len(),
                forall|j: int| 0 <= j < i ==> self.force_generators@[j].handle != h,
            decreases self.force_generators@.len() - i,
        {
            if self.force_generators[i].handle == h {
                proof {
                    let w: int = self.force_idx(h);
                    assert(0 <= w < self.force_generators@.len()
                        && self.force_generators@[w].handle == h);
                    assert(w == i as int);
                }
                self.force_generators.remove(i);
                proof {
                    old(self).force_generators@.remove_ensures(i as int);
                    if self.has_force(h) {
                        let w2: int = self.force_idx(h);
                        assert(0 <= w2 < self.force_generators@.len()
                            && self.force_generators@[w2].handle == h);
                        if w2 >= i as int {
                            assert(old(self).force_generators@[w2 + 1].handle == h);
                        }
                        assert(false);
                    }
                }
                return true;
            }
            i = i + 1;
        }
        false
    }

    /// Index of the force generator aimed at `body`, if one exists.
    fn force_index_for(&self, body: u64) -> (r: Option<usize>)
        requires
            self.wf(),
        ensures
            match r {
                Some(i) => i < self.force_generators@.len()
                    && self.force_generators@[i as int].body == body,
                None => !self.has_force_for(body),
            },
    {
        let mut i: usize = 0;
        while i < self.force_generators.len()
            invariant
                self.wf(),
                i <= self.force_generators@.len(),
                forall|j: int| 0 <= j < i ==> self.force_generators@[j].body != body,
            decreases self.force_generators@.len() - i,
        {
            if self.force_generators[i].body == body {
                return Some(i);
            }
            i = i + 1;
        }
        None
    }

    /// Advances the world by exactly one fixed timestep: dynamic bodies
    /// accelerate under gravity plus their force generator, every body
    /// integrates its translation by its new velocity, and both are clamped
    /// into the world bounds. Orientations and angular velocities are left
    /// to the engine and stay unchanged.
    pub fn step(&mut self)
        requires
            old(self).wf(),
        ensures
            final(self).wf(),
            *final(self) === (MyWorld { bodies: final(self).bodies, ..*old(self) }),
            final(self).bodies@.len() == old(self).bodies@.len(),
            forall|i: int|
                0 <= i < old(self).bodies@.len() ==> final(self).bodies@[i] === (RigidBody {
                    pose: Pose {
                        translation: final(self).bodies@[i].pose.translation,
                        rotation: old(self).bodies@[i].pose.rotation,
                    },
                    linvel: final(self).bodies@[i].linvel,
                    ..old(self).bodies@[i]
                }),
            forall|i: int|
                0 <= i < old(self).bodies@.len() ==> final(self).bodies@[i].linvel@
                    === step_vel_s(
                    old(self).bodies@[i],
                    old(self).gravity@,
                    old(self).force_generators@,
                    old(self).timestep as int,
                ),
            forall|i: int|
                0 <= i < old(self).bodies@.len() ==> final(self).bodies@[i].pose.translation@
                    === step_pos_s(
                    old(self).bodies@[i],
                    old(self).gravity@,
                    old(self).force_generators@,
                    old(self).timestep as int,
                ),
    {
        let ts: i64 = self.timestep;
        let g: Vec3 = self.gravity;
        let mut i: usize = 0;
        while i < self.bodies.len()
            invariant
                self.wf(),
                i <= self.bodies@.len(),
                ts == old(self).timestep,
                g == old(self).gravity,
                self.colliders == old(self).colliders,
                self.force_generators == old(self).force_generators,
                self.gravity == old(self).gravity,
                self.timestep == old(self).timestep,
                self.next_body_handle == old(self).next_body_handle,
                self.next_collider_handle == old(self).next_collider_handle,
                self.next_force_handle == old(self).next_force_handle,
                self.bodies@.len() == old(self).bodies@.len(),
                forall|k: int| i <= k < self.bodies@.len() ==> self.bodies@[k] === old(
                    self,
                ).bodies@[k],
                forall|k: int|
                    0 <= k < i ==> self.bodies@[k] === (RigidBody {
                        pose: Pose {
                            translation: self.bodies@[k].pose.translation,
                            rotation: old(self).bodies@[k].pose.rotation,
                        },
                        linvel: self.bodies@[k].linvel,
                        ..old(self).bodies@[k]
                    }),
                forall|k: int|
                    0 <= k < i ==> self.bodies@[k].linvel@ === step_vel_s(
                        old(self).bodies@[k],
                        old(self).gravity@,
                        old(self).force_generators@,
                        old(self).timestep as int,
                    ),
                forall|k: int|
                    0 <= k < i ==> self.bodies@[k].pose.translation@ === step_pos_s(
                        old(self).bodies@[k],
                        old(self).gravity@,
                        old(self).force_generators@,
                        old(self).timestep as int,
                    ),
            decreases self.bodies@.len() - i,
        {
            let b: RigidBody = self.bodies[i];
            let new_vel: Vec3 = if b.dynamic {
                let extra: Vec3 = match self.force_index_for(b.handle) {
                    Some(j) => {
                        proof {
                            let w: int = choose|w: int|
                                0 <= w < self.force_generators@.len()
                                    && self.force_generators@[w].body == b.handle;
                            if w < j as int {
                                assert(self.force_generators@[w].body
                                    != self.force_generators@[j as int].body);
                                assert(false);
                            } else if (j as int) < w {
                                assert(self.force_generators@[j as int].body
                                    != self.force_generators@[w].body);
                                assert(false);
                            }
                            assert(self.force_generators@[j as int].acceleration@
                                === extra_accel_s(self.force_generators@, b.handle));
                        }
                        self.force_generators[j].acceleration
                    },
                    None => Vec3 { x: 0, y: 0, z: 0 },
                };
                let a: Vec3 = g.plus(extra);
                proof {
                    crate::vec3::lemma_scale_by_keeps_bound(a@, ts as int, 2 * ACC_LIM as int);
                }
                let dv: Vec3 = a.scale_by(ts);
                let v1: Vec3 = b.linvel.plus(dv);
                clamp3(v1, VEL_LIM)
            } else {
                b.linvel
            };
            proof {
                crate::vec3::lemma_scale_by_keeps_bound(new_vel@, ts as int, VEL_LIM as int);
            }
            let dp: Vec3 = new_vel.scale_by(ts);
            let p1: Vec3 = b.pose.translation.plus(dp);
            let new_pos: Vec3 = clamp3(p1, POS_LIM);
            let updated: RigidBody = RigidBody {
                pose: Pose { translation: new_pos, rotation: b.pose.rotation },
                linvel: new_vel,
                ..b
            };
            self.bodies.set(i, updated);
            i = i + 1;
        }
    }
}

/// A kinematic body (the self body) keeps its commanded velocity through a
/// step and moves by exactly that velocity times the timestep, as long as
/// it stays inside the world bounds.
pub proof fn lemma_kinematic_step(b: RigidBody, g: V3, forces: Seq<ForceGenEntry>, ts: int)
    requires
        !b.dynamic,
        b.linvel.bounded(VEL_LIM as int),
        b.pose.translation.bounded(POS_LIM as int - VEL_LIM as int),
        0 < ts <= FX_ONE as int,
    ensures
        step_vel_s(b, g, forces, ts) === b.linvel@,
        step_pos_s(b, g, forces, ts) === plus_s(b.pose.translation@, scale_by_s(b.linvel@, ts)),
{
    crate::vec3::lemma_scale_by_keeps_bound(b.linvel@, ts, VEL_LIM as int);
}

/// A dynamic body whose force generator cancels gravity exactly keeps its
/// velocity through a step: no downward acceleration accumulates while an
/// object is held.
pub proof fn lemma_compensated_step_keeps_velocity(
    b: RigidBody,
    g: V3,
    forces: Seq<ForceGenEntry>,
    ts: int,
)
    requires
        b.dynamic,
        b.linvel.bounded(VEL_LIM as int),
        b.pose.translation.bounded(POS_LIM as int),
        extra_accel_s(forces, b.handle) === neg_s(g),
        0 < ts <= FX_ONE as int,
    ensures
        step_vel_s(b, g, forces, ts) === b.linvel@,
        b.linvel@.y == 0 ==> step_pos_s(b, g, forces, ts).y == b.pose.translation@.y,
{
    assert(plus_s(g, extra_accel_s(forces, b.handle)) === (V3 { x: 0, y: 0, z: 0 }));
    assert(fx_mul_s(0, ts) == 0) by {
        assert(0 * ts == 0) by (nonlinear_arith);
    }
    if b.linvel@.y == 0 {
        crate::vec3::lemma_scale_by_keeps_bound(b.linvel@, ts, VEL_LIM as int);
    }
}

/// Body lookups survive any change that keeps every handle in place.
pub proof fn lemma_body_lookup_stable(a: MyWorld, b: MyWorld, h: u64)
    requires
        a.wf(),
        b.wf(),
        a.bodies@.len() == b.bodies@.len(),
        forall|k: int|
            0 <= k < a.bodies@.len() ==> a.bodies@[k].handle == (
            #[trigger] b.bodies@[k]).handle,
    ensures
        a.has_body(h) == b.has_body(h),
        a.has_body(h) ==> a.body_idx(h) == b.body_idx(h),
{
    if a.has_body(h) {
        let ia: int = a.body_idx(h);
        assert(0 <= ia < a.bodies@.len() && a.bodies@[ia].handle == h);
        assert(b.bodies@[ia].handle == h);
        assert(b.has_body(h));
        let ib: int = b.body_idx(h);
        assert(0 <= ib < b.bodies@.len() && b.bodies@[ib].handle == h);
        if ib < ia {
            assert(b.bodies@[ib].handle != b.bodies@[ia].handle);
            assert(false);
        } else if ia < ib {
            assert(b.bodies@[ia].handle != b.bodies@[ib].handle);
            assert(false);
        }
    } else if b.has_body(h) {
        let ib: int = b.body_idx(h);
        assert(0 <= ib < b.bodies@.len() && b.bodies@[ib].handle == h);
        assert(a.bodies@[ib].handle == h);
        assert(a.has_body(h));
        assert(false);
    }
}

/// Collider lookups survive appends: whatever resolved before new
/// colliders were added resolves to the same record after.
pub proof fn lemma_collider_lookup_prefix(a: MyWorld, b: MyWorld, h: u64)
    requires
        a.wf(),
        b.wf(),
        a.colliders@.is_prefix_of(b.colliders@),
        a.has_collider(h),
    ensures
        b.has_collider(h),
        b.collider(h) === a.collider(h),
{
    let ia: int = a.collider_idx(h);
    assert(0 <= ia < a.colliders@.len() && a.colliders@[ia].handle == h);
    assert(b.colliders@[ia] === a.colliders@[ia]);
    assert(b.has_collider(h));
    let ib: int = b.collider_idx(h);
    assert(0 <= ib < b.colliders@.len() && b.colliders@[ib].handle == h);
    if ib < ia {
        assert(b.colliders@[ib].handle != b.colliders@[ia].handle);
        assert(false);
    } else if ia < ib {
        assert(b.colliders@[ia].handle != b.colliders@[ib].handle);
        assert(false);
    }
}

/// Body lookups survive appends, likewise.
pub proof fn lemma_body_lookup_prefix(a: MyWorld, b: MyWorld, h: u64)
    requires
        a.wf(),
        b.wf(),
        a.bodies@.is_prefix_of(b.bodies@),
        a.has_body(h),
    ensures
        b.has_body(h),
        b.body(h) === a.body(h),
{
    let ia: int = a.body_idx(h);
    assert(0 <= ia < a.bodies@.len() && a.bodies@[ia].handle == h);
    assert(b.bodies@[ia] === a.bodies@[ia]);
    assert(b.has_body(h));
    let ib: int = b.body_idx(h);
    assert(0 <= ib < b.bodies@.len() && b.bodies@[ib].handle == h);
    if ib < ia {
        assert(b.bodies@[ib].handle != b.bodies@[ia].handle);
        assert(false);
    } else if ia < ib {
        assert(b.bodies@[ia].handle != b.bodies@[ib].handle);
        assert(false);
    }
}

/// Componentwise clamp of a vector.
pub fn clamp3(v: Vec3, lim: i64) -> (r: Vec3)
    requires
        0 < lim,
    ensures
        r@ === clamp3_s(v@, lim as int),
        r.bounded(lim as int),
{
    Vec3 { x: clamp(v.x, lim), y: clamp(v.y, lim), z: clamp(v.z, lim) }
}

impl Default for MyWorld {
    /// An empty world with no gravity and the engine's customary sixtieth
    /// of a second timestep.
    fn default() -> (r: MyWorld)
        ensures
            r.wf(),
            r.bodies@.len() == 0,
            r.colliders@.len() == 0,
            r.force_generators@.len() == 0,
            r.gravity@ === (V3 { x: 0, y: 0, z: 0 }),
            r.timestep == 1092,
            r.next_body_handle == 1,
            r.next_collider_handle == 1,
            r.next_force_handle == 1,
    {
        MyWorld {
            bodies: Vec::new(),
            colliders: Vec::new(),
            force_generators: Vec::new(),
            gravity: Vec3 { x: 0, y: 0, z: 0 },
            timestep: 1092,
            next_body_handle: 1,
            next_collider_handle: 1,
            next_force_handle: 1,
        }
    }
}

} // verus!
