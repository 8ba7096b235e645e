//! The self-locomotion driver.
//!
//! Every frame the self body's velocities are zeroed (a fresh command each
//! frame, no residual drift); while input focus is active, the two
//! movement axes become a horizontal direction, rotated by the camera's
//! orientation, flattened, normalized, and scaled by the walking or running
//! speed, and that is set as the body's linear velocity. A near-zero
//! direction that cannot be normalized skips the velocity update for the
//! frame. After the physics step, `follow_self` locks the camera's
//! horizontal position to the body and its height to the collider's top,
//! so collision and gravity decide standing height while input decides
//! horizontal intent.

use vstd::prelude::*;
use crate::fx::{FX_ONE, POS_LIM, VEL_LIM, clamp_s, fx_mul_s, fx_div_s};
use crate::vec3::{
    Vec3, Mat3, Pose, V3, M3, apply_s, div_by_s, scale_by_s, plus_s, norm_s, identity_m3,
    bounded_s, lemma_rot_apply_bound,
};
use crate::scene::{Scene, EntityRec};
use crate::world::{MyWorld, RigidBody, ForceGenEntry, clamp3, clamp3_s, lemma_kinematic_step,
    step_pos_s, step_vel_s};
use crate::components::PhysicsBody;

verus! {

/// The self-locomotion driver with its two speeds.
#[derive(Clone, Copy, Debug, PartialEq, Eq, Structural)]
pub struct TranslationSystem {
    pub speed: i64,
    pub speed_running: i64,
}

/// The per-frame movement input: two axes in the fixed-point range
/// `[-1, 1]`, the run modifier, and whether input focus is active.
#[derive(Clone, Copy, Debug, PartialEq, Eq, Structural)]
pub struct LocomotionInput {
    pub move_x: i64,
    pub move_z: i64,
    pub running: bool,
    pub focused: bool,
}

/// The commanded walking velocity for camera orientation `rot`, movement
/// axes `(x, z)` and the selected speed: the axes as a horizontal
/// direction, rotated into world space, flattened to the horizontal plane,
/// normalized and scaled. `None` when a direction degenerates to zero
/// length, in which case no velocity update happens.
pub open spec fn walk_velocity_s(rot: M3, x: int, z: int, speed: int) -> Option<V3> {
    let dir = V3 { x, y: 0, z };
    if norm_s(dir) == 0 {
        None
    } else {
        let d = apply_s(rot, dir);
        let dh = V3 { x: d.x, y: 0, z: d.z };
        let n = norm_s(dh);
        if n == 0 {
            None
        } else {
            let unit = div_by_s(dh, n);
            Some(
                clamp3_s(
                    scale_by_s(clamp3_s(unit, 2 * FX_ONE as int), speed),
                    VEL_LIM as int,
                ),
            )
        }
    }
}

/// At most one entity is the player's own physical representation.
pub open spec fn one_self_s(scene: Scene) -> bool {
    forall|i: int, j: int|
        0 <= i < j < scene.entries@.len() ==> !(scene.entries@[i].camera_self
            && scene.entries@[j].camera_self)
}

/// At most one entity is the viewpoint.
pub open spec fn one_camera_s(scene: Scene) -> bool {
    forall|i: int, j: int|
        0 <= i < j < scene.entries@.len() ==> !(scene.entries@[i].camera
            && scene.entries@[j].camera)
}

/// There is a self entity with a registered body.
pub open spec fn has_self_body_s(scene: Scene) -> bool {
    exists|i: int|
        0 <= i < scene.entries@.len() && scene.entries@[i].camera_self
            && scene.entries@[i].body is Some
}

/// Its index (unique under `one_self_s`).
pub open spec fn self_idx_s(scene: Scene) -> int {
    choose|i: int|
        0 <= i < scene.entries@.len() && scene.entries@[i].camera_self
            && scene.entries@[i].body is Some
}

/// Its collider handle.
pub open spec fn self_collider_s(scene: Scene) -> u64 {
    match scene.entries@[self_idx_s(scene)].body {
        Some(pb) => pb.0,
        None => 0,
    }
}

/// The self collider resolves to a live body.
pub open spec fn self_resolves_s(scene: Scene, w: MyWorld) -> bool {
    &&& has_self_body_s(scene)
    &&& w.has_collider(self_collider_s(scene))
    &&& w.has_body(w.collider(self_collider_s(scene)).body)
}

/// The self rigid body handle.
pub open spec fn self_body_handle_s(scene: Scene, w: MyWorld) -> u64 {
    w.collider(self_collider_s(scene)).body
}

/// There is a camera entity.
pub open spec fn has_camera_s(scene: Scene) -> bool {
    exists|i: int| 0 <= i < scene.entries@.len() && scene.entries@[i].camera
}

/// Its index (unique under `one_camera_s`).
pub open spec fn camera_idx_s(scene: Scene) -> int {
    choose|i: int| 0 <= i < scene.entries@.len() && scene.entries@[i].camera
}

impl TranslationSystem {
    pub open spec fn wf(self) -> bool {
        &&& 0 <= self.speed <= VEL_LIM
        &&& 0 <= self.speed_running <= VEL_LIM
    }

    pub open spec fn selected_speed(self, running: bool) -> int {
        if running {
            self.speed_running as int
        } else {
            self.speed as int
        }
    }

    /// One locomotion frame: zeroes the self body's velocities, then, with
    /// focus active and a normalizable direction, sets the walking or
    /// running velocity. Without a resolvable self body nothing changes.
    pub fn run(&self, scene: &Scene, world: &mut MyWorld, input: &LocomotionInput, camera: &Pose)
        requires
            self.wf(),
            scene.wf(),
            old(world).wf(),
            one_self_s(*scene),
            camera.bounded(POS_LIM as int, FX_ONE as int),
            -FX_ONE <= input.move_x <= FX_ONE,
            -FX_ONE <= input.move_z <= FX_ONE,
        ensures
            final(world).wf(),
            !self_resolves_s(*scene, *old(world)) ==> *final(world) === *old(world),
            self_resolves_s(*scene, *old(world)) ==> {
                let bh = self_body_handle_s(*scene, *old(world));
                let idx = old(world).body_idx(bh);
                let commanded = walk_velocity_s(
                    camera.rotation@,
                    input.move_x as int,
                    input.move_z as int,
                    self.selected_speed(input.running),
                );
                &&& final(world).bodies@.len() == old(world).bodies@.len()
                &&& forall|k: int|
                    0 <= k < old(world).bodies@.len() && k != idx ==> final(world).bodies@[k]
                        === old(world).bodies@[k]
                &&& final(world).bodies@[idx] === (RigidBody {
                    linvel: final(world).bodies@[idx].linvel,
                    angvel: Vec3 { x: 0, y: 0, z: 0 },
                    ..old(world).body(bh)
                })
                &&& final(world).bodies@[idx].linvel@ === (if input.focused {
                    match commanded {
                        Some(v) => v,
                        None => V3 { x: 0, y: 0, z: 0 },
                    }
                } else {
                    V3 { x: 0, y: 0, z: 0 }
                })
                &&& final(world).colliders == old(world).colliders
                &&& final(world).force_generators == old(world).force_generators
                &&& final(world).gravity == old(world).gravity
                &&& final(world).timestep == old(world).timestep
            },
    {
        // Find the self entity and resolve its body.
        let pb: PhysicsBody = match find_self_body(scene) {
            Some(p) => p,
            None => {
                return ;
            },
        };
        let bh: u64 = match world.collider_body_handle(pb.0) {
            Some(b) => b,
            None => {
                return ;
            },
        };
        match world.body_pose(bh) {
            Some(_) => {},
            None => {
                return ;
            },
        }
        proof {
            assert(self_resolves_s(*scene, *old(world)));
            assert(bh == self_body_handle_s(*scene, *old(world)));
        }
        let ghost idx: int = world.body_idx(bh);
        // A fresh command every frame: no residual drift.
        let zero: Vec3 = Vec3 { x: 0, y: 0, z: 0 };
        world.set_linear_velocity(bh, zero);
        proof {
            pin_body_idx(world, bh, idx);
        }
        world.set_angular_velocity(bh, zero);
        proof {
            pin_body_idx(world, bh, idx);
        }
        if !input.focused {
            return ;
        }
        // Direction from the two axes; skip the frame if it degenerates.
        let dir: Vec3 = Vec3 { x: input.move_x, y: 0, z: input.move_z };
        let n1: i64 = dir.norm();
        if n1 == 0 {
            return ;
        }
        // Into world space by the camera orientation, then flattened.
        proof {
            lemma_rot_apply_bound(camera.rotation@, dir@, FX_ONE as int);
        }
        let d: Vec3 = camera.rotation.apply(dir);
        let dh: Vec3 = Vec3 { x: d.x, y: 0, z: d.z };
        let n2: i64 = dh.norm();
        if n2 == 0 {
            return ;
        }
        let unit: Vec3 = dh.div_by(n2);
        let speed: i64 = if input.running {
            self.speed_running
        } else {
            self.speed
        };
        let vel: Vec3 = clamp3(clamp3(unit, 2 * FX_ONE).scale_by(speed), VEL_LIM);
        world.set_linear_velocity(bh, vel);
        proof {
            pin_body_idx(world, bh, idx);
        }
    }
}

/// After the step: the camera transform's horizontal position comes from
/// the self body's world position, its height from the collider's top.
/// Without a resolvable self body or a camera entity, nothing changes.
pub fn follow_self(scene: &mut Scene, world: &MyWorld)
    requires
        old(scene).wf(),
        world.wf(),
        one_self_s(*old(scene)),
        one_camera_s(*old(scene)),
    ensures
        final(scene).wf(),
        final(scene).next_id == old(scene).next_id,
        !(self_resolves_s(*old(scene), *world) && has_camera_s(*old(scene))) ==> *final(scene)
            === *old(scene),
        self_resolves_s(*old(scene), *world) && has_camera_s(*old(scene)) ==> {
            let body = world.body(self_body_handle_s(*old(scene), *world));
            let top = clamp_s(
                body.pose.translation@.y + world.collider(
                    self_collider_s(*old(scene)),
                ).half_height,
                POS_LIM as int,
            );
            let ci = camera_idx_s(*old(scene));
            &&& final(scene).entries@.len() == old(scene).entries@.len()
            &&& forall|k: int|
                0 <= k < old(scene).entries@.len() && k != ci ==> final(scene).entries@[k]
                    === old(scene).entries@[k]
            &&& final(scene).entries@[ci] === (EntityRec {
                transform: Pose {
                    translation: final(scene).entries@[ci].transform.translation,
                    rotation: old(scene).entries@[ci].transform.rotation,
                },
                ..old(scene).entries@[ci]
            })
            &&& final(scene).entries@[ci].transform.translation@ === (V3 {
                x: body.pose.translation@.x,
                y: top,
                z: body.pose.translation@.z,
            })
        },
{
    let pb: PhysicsBody = match find_self_body(scene) {
        Some(p) => p,
        None => {
            return ;
        },
    };
    let bh: u64 = match world.collider_body_handle(pb.0) {
        Some(b) => b,
        None => {
            return ;
        },
    };
    let pos: Vec3 = match world.body_pose(bh) {
        Some(p) => p.translation,
        None => {
            return ;
        },
    };
    let top: i64 = match world.collider_top(pb.0) {
        Some(t) => t,
        None => {
            proof {
                assert(false);
            }
            return ;
        },
    };
    proof {
        assert(self_resolves_s(*old(scene), *world));
        assert(bh == self_body_handle_s(*old(scene), *world));
        let bi: int = world.body_idx(bh);
        assert(MyWorld::body_ok(world.bodies@[bi]));
    }
    // Find the camera entity and overwrite its translation.
    let mut i: usize = 0;
    while i < scene.entries.len()
        invariant
            *scene === *old(scene),
            scene.wf(),
            one_camera_s(*scene),
            world.wf(),
            i <= scene.entries@.len(),
            forall|j: int| 0 <= j < i ==> !scene.entries@[j].camera,
            self_resolves_s(*old(scene), *world),
            bh == self_body_handle_s(*old(scene), *world),
            pos === world.body(bh).pose.translation,
            pos.bounded(POS_LIM as int),
            top == clamp_s(
                world.body(bh).pose.translation@.y + world.collider(
                    self_collider_s(*old(scene)),
                ).half_height,
                POS_LIM as int,
            ),
            -POS_LIM <= top <= POS_LIM,
        decreases scene.entries@.len() - i,
    {
        if scene.entries[i].camera {
            proof {
                assert(0 <= (i as int) < old(scene).entries@.len() && old(scene).entries@[i as int].camera);
                assert(has_camera_s(*old(scene)));
                let ci: int = camera_idx_s(*old(scene));
                assert(0 <= ci < scene.entries@.len() && scene.entries@[ci].camera);
                if ci < i as int {
                    assert(false);
                } else if (i as int) < ci {
                    assert(!(scene.entries@[i as int].camera && scene.entries@[ci].camera));
                    assert(false);
                }
            }
            let e: EntityRec = scene.entries[i];
            let updated: EntityRec = EntityRec {
                transform: Pose {
                    translation: Vec3 { x: pos.x, y: top, z: pos.z },
                    rotation: e.transform.rotation,
                },
                ..e
            };
            scene.entries.set(i, updated);
            return ;
        }
        i = i + 1;
    }
}

/// The first (and under `one_self_s` the only) self entity's collider.
fn find_self_body(scene: &Scene) -> (r: Option<PhysicsBody>)
    requires
        scene.wf(),
        one_self_s(*scene),
    ensures
        match r {
            Some(pb) => has_self_body_s(*scene) && pb.0 == self_collider_s(*scene),
            None => !has_self_body_s(*scene),
        },
{
    let mut i: usize = 0;
    while i < scene.entries.len()
        invariant
            scene.wf(),
            one_self_s(*scene),
            i <= scene.entries@.len(),
            forall|j: int|
                0 <= j < i ==> !(scene.entries@[j].camera_self && scene.entries@[j].body
                    is Some),
        decreases scene.entries@.len() - i,
    {
        if scene.entries[i].camera_self {
            match scene.entries[i].body {
                Some(pb) => {
                    proof {
                        let w: int = self_idx_s(*scene);
                        assert(0 <= w < scene.entries@.len() && scene.entries@[w].camera_self
                            && scene.entries@[w].body is Some);
                        if w < i as int {
                            assert(false);
                        } else if (i as int) < w {
                            assert(!(scene.entries@[i as int].camera_self
                                && scene.entries@[w].camera_self));
                            assert(false);
                        }
                    }
                    return Some(pb);
                },
                None => {},
            }
        }
        i = i + 1;
    }
    None
}

/// The self and camera lookups survive any scene change that keeps every
/// record's identity, tags and collider in place (only materials and
/// transforms differing).
pub proof fn lemma_self_camera_stable(a: Scene, b: Scene)
    requires
        a.entries@.len() == b.entries@.len(),
        forall|k: int|
            0 <= k < a.entries@.len() ==> (#[trigger] b.entries@[k]) === (EntityRec {
                material: b.entries@[k].material,
                transform: b.entries@[k].transform,
                ..a.entries@[k]
            }),
        one_self_s(a),
        one_camera_s(a),
    ensures
        one_self_s(b),
        one_camera_s(b),
        has_self_body_s(a) == has_self_body_s(b),
        has_camera_s(a) == has_camera_s(b),
        has_self_body_s(a) ==> self_idx_s(a) == self_idx_s(b) && self_collider_s(a)
            == self_collider_s(b),
        has_camera_s(a) ==> camera_idx_s(a) == camera_idx_s(b),
{
    assert(forall|k: int|
        0 <= k < a.entries@.len() ==> (#[trigger] b.entries@[k]).camera_self
            == a.entries@[k].camera_self && b.entries@[k].camera == a.entries@[k].camera
            && b.entries@[k].body === a.entries@[k].body);
    if has_self_body_s(a) {
        let ia: int = self_idx_s(a);
        assert(0 <= ia < a.entries@.len() && a.entries@[ia].camera_self && a.entries@[ia].body
            is Some);
        assert(b.entries@[ia].camera_self && b.entries@[ia].body is Some);
        assert(has_self_body_s(b));
        let ib: int = self_idx_s(b);
        assert(0 <= ib < b.entries@.len() && b.entries@[ib].camera_self && b.entries@[ib].body
            is Some);
        if ib < ia {
            assert(!(a.entries@[ib].camera_self && a.entries@[ia].camera_self));
            assert(false);
        } else if ia < ib {
            assert(!(a.entries@[ia].camera_self && a.entries@[ib].camera_self));
            assert(false);
        }
    } else if has_self_body_s(b) {
        let ib: int = self_idx_s(b);
        assert(0 <= ib < b.entries@.len() && b.entries@[ib].camera_self && b.entries@[ib].body
            is Some);
        assert(a.entries@[ib].camera_self && a.entries@[ib].body is Some);
        assert(false);
    }
    if has_camera_s(a) {
        let ia: int = camera_idx_s(a);
        assert(0 <= ia < a.entries@.len() && a.entries@[ia].camera);
        assert(b.entries@[ia].camera);
        assert(has_camera_s(b));
        let ib: int = camera_idx_s(b);
        assert(0 <= ib < b.entries@.len() && b.entries@[ib].camera);
        if ib < ia {
            assert(!(a.entries@[ib].camera && a.entries@[ia].camera));
            assert(false);
        } else if ia < ib {
            assert(!(a.entries@[ia].camera && a.entries@[ib].camera));
            assert(false);
        }
    } else if has_camera_s(b) {
        let ib: int = camera_idx_s(b);
        assert(0 <= ib < b.entries@.len() && b.entries@[ib].camera);
        assert(a.entries@[ib].camera);
        assert(false);
    }
}

/// After a velocity write, the body keeps its handle and its index.
proof fn pin_body_idx(world: &MyWorld, bh: u64, idx: int)
    requires
        world.wf(),
        0 <= idx < world.bodies@.len(),
        world.bodies@[idx].handle == bh,
    ensures
        world.has_body(bh),
        world.body_idx(bh) == idx,
        world.body(bh) === world.bodies@[idx],
{
    assert(world.has_body(bh));
    let idx2: int = world.body_idx(bh);
    assert(0 <= idx2 < world.bodies@.len() && world.bodies@[idx2].handle == bh);
    if idx2 < idx {
        assert(world.bodies@[idx2].handle != world.bodies@[idx].handle);
        assert(false);
    } else if idx < idx2 {
        assert(world.bodies@[idx].handle != world.bodies@[idx2].handle);
        assert(false);
    }
}

/// With the camera yaw at the identity and the movement axes at `(1, 0)`,
/// the commanded velocity is exactly the selected speed along the
/// camera-rotated x axis.
pub proof fn lemma_walk_full_forward_velocity(speed: int)
    requires
        0 <= speed <= VEL_LIM,
    ensures
        walk_velocity_s(identity_m3(), FX_ONE as int, 0, speed) === Some(
            V3 { x: speed, y: 0, z: 0 },
        ),
{
    let f: int = FX_ONE as int;
    let dir = V3 { x: f, y: 0, z: 0 };
    crate::fx::lemma_fx_identity(f);
    crate::fx::lemma_fx_identity(0);
    crate::fx::lemma_fx_identity(speed);
    assert(crate::vec3::dot_s(dir, dir) == f);
    crate::fx::lemma_isqrt_s_unique(f * f, f);
    assert(norm_s(dir) == f);
    let d = apply_s(identity_m3(), dir);
    assert(d === dir);
    let unit = div_by_s(dir, f);
    assert(unit === (V3 { x: f, y: 0, z: 0 }));
    assert(clamp3_s(unit, 2 * f) === unit);
    let scaled = scale_by_s(unit, speed);
    assert(scaled === (V3 { x: speed, y: 0, z: 0 }));
    assert(clamp3_s(scaled, VEL_LIM as int) === scaled);
}

/// With the opening camera's quarter-turn yaw (observing along the
/// positive x axis) and the movement axes at `(1, 0)`, the commanded
/// velocity is exactly the selected speed along that camera's x axis,
/// which the quarter turn maps onto the negative z axis.
pub proof fn lemma_walk_full_forward_velocity_quarter_turn(speed: int)
    requires
        0 <= speed <= VEL_LIM,
    ensures
        walk_velocity_s(
            crate::game_state::camera_rotation_s(),
            FX_ONE as int,
            0,
            speed,
        ) === Some(V3 { x: 0, y: 0, z: -speed }),
{
    let f: int = FX_ONE as int;
    let dir = V3 { x: f, y: 0, z: 0 };
    crate::fx::lemma_fx_identity(f);
    crate::fx::lemma_fx_identity(0);
    crate::fx::lemma_fx_identity(speed);
    crate::fx::lemma_fx_identity(-f);
    assert(crate::vec3::dot_s(dir, dir) == f);
    crate::fx::lemma_isqrt_s_unique(f * f, f);
    assert(norm_s(dir) == f);
    let d = apply_s(crate::game_state::camera_rotation_s(), dir);
    assert(d === (V3 { x: 0, y: 0, z: -f }));
    let dh = V3 { x: 0, y: 0, z: -f };
    assert(crate::vec3::dot_s(dh, dh) == f);
    assert(norm_s(dh) == f);
    let unit = div_by_s(dh, f);
    assert(unit === (V3 { x: 0, y: 0, z: -f }));
    assert(clamp3_s(unit, 2 * f) === unit);
    let scaled = scale_by_s(unit, speed);
    assert(scaled === (V3 { x: 0, y: 0, z: -speed }));
    assert(clamp3_s(scaled, VEL_LIM as int) === scaled);
}

/// The one-step walking law, for every camera yaw: a kinematic self body
/// whose commanded velocity is the walking command for that yaw advances
/// in one physics step by exactly that velocity times the timestep (the
/// command itself is the normalized, camera-rotated, speed-scaled axis
/// direction, in fixed point).
pub proof fn lemma_walk_one_step(
    rot: M3,
    x: int,
    z: int,
    speed: int,
    b: RigidBody,
    g: V3,
    forces: Seq<ForceGenEntry>,
    ts: int,
)
    requires
        !b.dynamic,
        walk_velocity_s(rot, x, z, speed) === Some(b.linvel@),
        b.pose.translation.bounded(POS_LIM as int - VEL_LIM as int),
        0 < ts <= FX_ONE as int,
    ensures
        step_vel_s(b, g, forces, ts) === b.linvel@,
        step_pos_s(b, g, forces, ts) === plus_s(
            b.pose.translation@,
            scale_by_s(b.linvel@, ts),
        ),
{
    lemma_kinematic_step(b, g, forces, ts);
}

/// The self body walking full-forward under an identity camera yaw: after
/// exactly one physics step its horizontal position has advanced by the
/// selected speed times the timestep along the x axis, and its height is
/// whatever physics left there.
pub proof fn lemma_self_walk_one_step(
    b: RigidBody,
    g: V3,
    forces: Seq<ForceGenEntry>,
    ts: int,
    speed: int,
)
    requires
        !b.dynamic,
        0 <= speed <= VEL_LIM,
        b.linvel@ === (V3 { x: speed, y: 0, z: 0 }),
        b.pose.translation.bounded(POS_LIM as int - VEL_LIM as int),
        0 < ts <= FX_ONE as int,
    ensures
        step_vel_s(b, g, forces, ts) === b.linvel@,
        step_pos_s(b, g, forces, ts) === (V3 {
            x: b.pose.translation@.x + fx_mul_s(speed, ts),
            y: b.pose.translation@.y,
            z: b.pose.translation@.z,
        }),
{
    lemma_kinematic_step(b, g, forces, ts);
    assert(fx_mul_s(0, ts) == 0) by {
        assert(0 * ts == 0) by (nonlinear_arith);
    }
}

impl Default for TranslationSystem {
    /// The customary speeds: walking at one unit per second, running at
    /// five.
    fn default() -> (r: TranslationSystem)
        ensures
            r.speed == FX_ONE,
            r.speed_running == 5 * FX_ONE,
            r.wf(),
    {
        TranslationSystem { speed: FX_ONE, speed_running: 5 * FX_ONE }
    }
}

} // verus!
