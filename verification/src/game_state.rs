//! Building the opening scene: the floor, five grabbable cubes, the
//! player's own body, and the camera.
//!
//! Meshes, textures, lights and the UI stay with the rendering
//! collaborator; what enters the model is each entity's pose, its material
//! handles, and its physics shape extent. Initial orientations that the
//! original scene expresses as axis-angle rotations are modeled as the
//! identity: orientation integration belongs to the engine.

use vstd::prelude::*;
use crate::fx::FX_ONE;
use crate::vec3::{Vec3, Mat3, Pose, V3};
use crate::scene::{Scene, EntityRec};
use crate::world::{MyWorld, RigidBody, Collider};
use crate::components::{PhysicsBody, Grabbable};
use crate::locomotion::{one_self_s, one_camera_s, has_self_body_s, has_camera_s, self_resolves_s};
use crate::merge::unique_bodies_s;

verus! {

/// Collision margin of every collider (fixed-point 0.01).
pub const COLLIDER_MARGIN: i64 = 655;

/// The player's standing height (fixed-point 1.8).
pub const CAMERA_HEIGHT: i64 = 117964;

/// Half of the standing height: the self collider's vertical half-extent.
pub const CAMERA_HALF_HEIGHT: i64 = 58982;

/// Vertical half-extent of a cube collider (half a unit minus the margin).
pub const CUBE_HALF: i64 = 32112;

/// The camera's starting position on the x axis (fixed-point 8).
pub const INITIAL_CAMERA_X: i64 = 524288;

/// The camera's starting position on the z axis (fixed-point 4).
pub const INITIAL_CAMERA_Z: i64 = 262144;

/// Downward gravity (fixed-point 9.81).
pub const GRAVITY_Y: i64 = 642908;

/// How many cubes the scene opens with.
pub const CUBE_COUNT: u64 = 5;

/// The opening game state: it remembers the shared cube mesh handle.
#[derive(Clone, Copy, Debug, PartialEq, Eq, Structural, Default)]
pub struct GameState {
    pub cube_mesh: Option<u64>,
}

/// Where cube `i` starts: spread along x, stacked along y, staggered
/// around z equal to three.
pub open spec fn cube_position_s(i: int) -> V3 {
    V3 {
        x: 196608 * i - 491520,
        y: 196608 * i + 163840,
        z: if i % 2 == 0 {
            229376
        } else {
            163840
        },
    }
}

/// The camera's fixed starting orientation: observing along the positive
/// x axis with y up (so the view ray, the transformed negative z axis,
/// points toward negative x).
pub open spec fn camera_rotation_s() -> crate::vec3::M3 {
    crate::vec3::M3 {
        r0: V3 { x: 0, y: 0, z: FX_ONE as int },
        r1: V3 { x: 0, y: FX_ONE as int, z: 0 },
        r2: V3 { x: -(FX_ONE as int), y: 0, z: 0 },
    }
}

impl GameState {
    /// Remembers the cube mesh the loader produced.
    pub fn prepare_cubes(&mut self, mesh: u64)
        ensures
            final(self).cube_mesh === Some(mesh),
    {
        self.cube_mesh = Some(mesh);
    }

    /// The floor: a rendered plane whose collider is attached to the
    /// immovable ground, so it has no rigid body of its own.
    pub fn create_floor(&mut self, scene: &mut Scene, world: &mut MyWorld, material: u64) -> (id:
        u64)
        requires
            old(scene).wf(),
            old(world).wf(),
            old(scene).next_id < u64::MAX,
            old(world).next_collider_handle < u64::MAX,
        ensures
            *final(self) === *old(self),
            final(scene).wf(),
            final(world).wf(),
            id == old(scene).next_id,
            final(scene).entries@ === old(scene).entries@.push(
                EntityRec {
                    id,
                    transform: Pose {
                        translation: Vec3 { x: 0, y: 0, z: 0 },
                        rotation: Mat3 {
                            r0: Vec3 { x: FX_ONE, y: 0, z: 0 },
                            r1: Vec3 { x: 0, y: FX_ONE, z: 0 },
                            r2: Vec3 { x: 0, y: 0, z: FX_ONE },
                        },
                    },
                    material: Some(material),
                    grabbable: None,
                    mergeable: false,
                    loading: false,
                    camera_self: false,
                    camera: false,
                    body: None,
                },
            ),
            final(world).colliders@ === old(world).colliders@.push(
                Collider { handle: old(world).next_collider_handle, body: 0, half_height: 0 },
            ),
            final(world).bodies == old(world).bodies,
            final(world).force_generators == old(world).force_generators,
            final(world).gravity == old(world).gravity,
            final(world).timestep == old(world).timestep,
            final(scene).next_id == old(scene).next_id + 1,
            final(world).next_body_handle == old(world).next_body_handle,
            final(world).next_collider_handle == old(world).next_collider_handle + 1,
            final(world).next_force_handle == old(world).next_force_handle,
    {
        world.add_collider(MyWorld::ground(), 0);
        let t: Pose = Pose { translation: Vec3::zero(), rotation: Mat3::identity() };
        let template: EntityRec = EntityRec { material: Some(material), ..Scene::blank(t) };
        scene.spawn(template)
    }

    /// One grabbable cube: a dynamic body at its starting position, its
    /// collider, the material pair, and the shared mesh.
    pub fn create_cube(
        &mut self,
        scene: &mut Scene,
        world: &mut MyWorld,
        i: u64,
        grabbable: Grabbable,
    ) -> (id: u64)
        requires
            old(self).cube_mesh is Some,
            i < CUBE_COUNT,
            old(scene).wf(),
            old(world).wf(),
            old(scene).next_id < u64::MAX,
            old(world).next_body_handle < u64::MAX,
            old(world).next_collider_handle < u64::MAX,
        ensures
            *final(self) === *old(self),
            final(scene).wf(),
            final(world).wf(),
            id == old(scene).next_id,
            ({
                let bh = old(world).next_body_handle;
                let ch = old(world).next_collider_handle;
                let pose = Pose {
                    translation: final(world).bodies@.last().pose.translation,
                    rotation: Mat3 {
                        r0: Vec3 { x: FX_ONE, y: 0, z: 0 },
                        r1: Vec3 { x: 0, y: FX_ONE, z: 0 },
                        r2: Vec3 { x: 0, y: 0, z: FX_ONE },
                    },
                };
                &&& final(world).bodies@.last().pose.translation@ === cube_position_s(i as int)
                &&& final(world).bodies@ === old(world).bodies@.push(
                    RigidBody {
                        handle: bh,
                        pose,
                        linvel: Vec3 { x: 0, y: 0, z: 0 },
                        angvel: Vec3 { x: 0, y: 0, z: 0 },
                        dynamic: true,
                    },
                )
                &&& final(world).colliders@ === old(world).colliders@.push(
                    Collider { handle: ch, body: bh, half_height: CUBE_HALF },
                )
                &&& final(scene).entries@ === old(scene).entries@.push(
                    EntityRec {
                        id,
                        transform: pose,
                        material: Some(grabbable.default_material),
                        grabbable: Some(grabbable),
                        mergeable: false,
                        loading: false,
                        camera_self: false,
                        camera: false,
                        body: Some(PhysicsBody(ch)),
                    },
                )
            }),
            final(world).force_generators == old(world).force_generators,
            final(world).gravity == old(world).gravity,
            final(world).timestep == old(world).timestep,
            final(scene).next_id == old(scene).next_id + 1,
            final(world).next_body_handle == old(world).next_body_handle + 1,
            final(world).next_collider_handle == old(world).next_collider_handle + 1,
            final(world).next_force_handle == old(world).next_force_handle,
    {
        let ii: i64 = i as i64;
        let pos: Vec3 = Vec3 {
            x: 196608 * ii - 491520,
            y: 196608 * ii + 163840,
            z: if i % 2 == 0 {
                229376
            } else {
                163840
            },
        };
        let pose: Pose = Pose { translation: pos, rotation: Mat3::identity() };
        let bh: u64 = world.add_rigid_body(pose, true);
        let ch: u64 = world.add_collider(bh, CUBE_HALF);
        let template: EntityRec = EntityRec {
            material: Some(grabbable.default_material),
            grabbable: Some(grabbable),
            body: Some(PhysicsBody(ch)),
            ..Scene::blank(pose)
        };
        scene.spawn(template)
    }

    /// The player's own body: a kinematic capsule-like collider standing
    /// at the camera's start, driven by locomotion, settled by gravity.
    pub fn create_self(&mut self, scene: &mut Scene, world: &mut MyWorld) -> (id: u64)
        requires
            old(scene).wf(),
            old(world).wf(),
            old(scene).next_id < u64::MAX,
            old(world).next_body_handle < u64::MAX,
            old(world).next_collider_handle < u64::MAX,
        ensures
            *final(self) === *old(self),
            final(scene).wf(),
            final(world).wf(),
            id == old(scene).next_id,
            ({
                let bh = old(world).next_body_handle;
                let ch = old(world).next_collider_handle;
                let pose = Pose {
                    translation: Vec3 {
                        x: INITIAL_CAMERA_X,
                        y: CAMERA_HALF_HEIGHT,
                        z: INITIAL_CAMERA_Z,
                    },
                    rotation: Mat3 {
                        r0: Vec3 { x: FX_ONE, y: 0, z: 0 },
                        r1: Vec3 { x: 0, y: FX_ONE, z: 0 },
                        r2: Vec3 { x: 0, y: 0, z: FX_ONE },
                    },
                };
                &&& final(world).bodies@ === old(world).bodies@.push(
                    RigidBody {
                        handle: bh,
                        pose,
                        linvel: Vec3 { x: 0, y: 0, z: 0 },
                        angvel: Vec3 { x: 0, y: 0, z: 0 },
                        dynamic: false,
                    },
                )
                &&& final(world).colliders@ === old(world).colliders@.push(
                    Collider { handle: ch, body: bh, half_height: CAMERA_HALF_HEIGHT },
                )
                &&& final(scene).entries@ === old(scene).entries@.push(
                    EntityRec {
                        id,
                        transform: pose,
                        material: None,
                        grabbable: None,
                        mergeable: false,
                        loading: false,
                        camera_self: true,
                        camera: false,
                        body: Some(PhysicsBody(ch)),
                    },
                )
            }),
            final(world).force_generators == old(world).force_generators,
            final(world).gravity == old(world).gravity,
            final(world).timestep == old(world).timestep,
            final(scene).next_id == old(scene).next_id + 1,
            final(world).next_body_handle == old(world).next_body_handle + 1,
            final(world).next_collider_handle == old(world).next_collider_handle + 1,
            final(world).next_force_handle == old(world).next_force_handle,
    {
        let pose: Pose = Pose {
            translation: Vec3 {
                x: INITIAL_CAMERA_X,
                y: CAMERA_HALF_HEIGHT,
                z: INITIAL_CAMERA_Z,
            },
            rotation: Mat3::identity(),
        };
        let bh: u64 = world.add_rigid_body(pose, false);
        let ch: u64 = world.add_collider(bh, CAMERA_HALF_HEIGHT);
        let template: EntityRec = EntityRec {
            camera_self: true,
            body: Some(PhysicsBody(ch)),
            ..Scene::blank(pose)
        };
        scene.spawn(template)
    }

    /// The viewpoint entity at standing height, observing along the
    /// positive x axis.
    pub fn create_camera(&mut self, scene: &mut Scene) -> (id: u64)
        requires
            old(scene).wf(),
            old(scene).next_id < u64::MAX,
        ensures
            *final(self) === *old(self),
            final(scene).wf(),
            id == old(scene).next_id,
            final(scene).entries@ === old(scene).entries@.push(
                EntityRec {
                    id,
                    transform: final(scene).entries@.last().transform,
                    material: None,
                    grabbable: None,
                    mergeable: false,
                    loading: false,
                    camera_self: false,
                    camera: true,
                    body: None,
                },
            ),
            final(scene).entries@.last().transform.translation@ === (V3 {
                x: INITIAL_CAMERA_X as int,
                y: CAMERA_HEIGHT as int,
                z: INITIAL_CAMERA_Z as int,
            }),
            final(scene).entries@.last().transform.rotation@ === camera_rotation_s(),
            final(scene).next_id == old(scene).next_id + 1,
    {
        let rotation: Mat3 = Mat3 {
            r0: Vec3 { x: 0, y: 0, z: FX_ONE },
            r1: Vec3 { x: 0, y: FX_ONE, z: 0 },
            r2: Vec3 { x: -FX_ONE, y: 0, z: 0 },
        };
        let t: Pose = Pose {
            translation: Vec3 { x: INITIAL_CAMERA_X, y: CAMERA_HEIGHT, z: INITIAL_CAMERA_Z },
            rotation,
        };
        let template: EntityRec = EntityRec { camera: true, ..Scene::blank(t) };
        scene.spawn(template)
    }

    /// Builds the whole opening scene into an empty, gravity-free world:
    /// floor, five cubes, one settling step, gravity, the self body, and
    /// the camera (gravity after the first step is the deliberate
    /// ordering).
    pub fn on_start(
        &mut self,
        scene: &mut Scene,
        world: &mut MyWorld,
        cube_mesh: u64,
        floor_material: u64,
        cube_materials: &Vec<Grabbable>,
    )
        requires
            old(scene).wf(),
            old(world).wf(),
            old(scene).entries@.len() == 0,
            old(world).bodies@.len() == 0,
            old(world).colliders@.len() == 0,
            old(world).force_generators@.len() == 0,
            old(world).gravity@ === (V3 { x: 0, y: 0, z: 0 }),
            old(scene).next_id + 8 < u64::MAX,
            old(world).next_body_handle + 8 < u64::MAX,
            old(world).next_collider_handle + 8 < u64::MAX,
            cube_materials@.len() == CUBE_COUNT,
        ensures
            final(self).cube_mesh === Some(cube_mesh),
            final(scene).wf(),
            final(world).wf(),
            final(scene).entries@.len() == 8,
            one_self_s(*final(scene)),
            one_camera_s(*final(scene)),
            has_self_body_s(*final(scene)),
            has_camera_s(*final(scene)),
            self_resolves_s(*final(scene), *final(world)),
            unique_bodies_s(*final(scene)),
            final(world).force_generators@.len() == 0,
            final(world).gravity@ === (V3 { x: 0, y: -(GRAVITY_Y as int), z: 0 }),
            final(world).timestep == old(world).timestep,
            final(world).bodies@.len() == 6,
            final(world).colliders@.len() == 7,
            // The floor: a rendered plane whose collider hangs off the
            // ground, so it has no rigid body of its own.
            final(scene).entries@[0] === (EntityRec {
                id: old(scene).next_id,
                transform: Pose {
                    translation: Vec3 { x: 0, y: 0, z: 0 },
                    rotation: Mat3 {
                        r0: Vec3 { x: FX_ONE, y: 0, z: 0 },
                        r1: Vec3 { x: 0, y: FX_ONE, z: 0 },
                        r2: Vec3 { x: 0, y: 0, z: FX_ONE },
                    },
                },
                material: Some(floor_material),
                grabbable: None,
                mergeable: false,
                loading: false,
                camera_self: false,
                camera: false,
                body: None,
            }),
            final(world).colliders@[0] === (Collider {
                handle: old(world).next_collider_handle,
                body: 0,
                half_height: 0,
            }),
            // The five cubes: grabbable records whose colliders resolve to
            // dynamic bodies standing at their spread-out start positions
            // (the settling step under zero gravity moves nothing).
            forall|k: int|
                0 <= k < 5 ==> {
                    let e = #[trigger] final(scene).entries@[1 + k];
                    &&& e.id == old(scene).next_id + 1 + k
                    &&& e.material === Some(cube_materials@[k].default_material)
                    &&& e.grabbable === Some(cube_materials@[k])
                    &&& !e.mergeable
                    &&& !e.loading
                    &&& !e.camera_self
                    &&& !e.camera
                    &&& e.transform.translation@ === cube_position_s(k)
                    &&& match e.body {
                        Some(pb) => {
                            &&& pb.0 == old(world).next_collider_handle + 1 + k
                            &&& final(world).has_collider(pb.0)
                            &&& final(world).collider(pb.0).half_height == CUBE_HALF
                            &&& final(world).collider(pb.0).body == old(world).next_body_handle
                                + k
                            &&& final(world).has_body(final(world).collider(pb.0).body)
                            &&& final(world).body(final(world).collider(pb.0).body).dynamic
                            &&& final(world).body(
                                final(world).collider(pb.0).body,
                            ).pose.translation@ === cube_position_s(k)
                        },
                        None => false,
                    }
                },
            // The self body: a kinematic capsule stand-in at the camera's
            // start, carrying the player.
            ({
                let e = final(scene).entries@[6];
                &&& e.id == old(scene).next_id + 6
                &&& e.camera_self
                &&& !e.camera
                &&& e.material is None
                &&& e.grabbable is None
                &&& e.transform.translation@ === (V3 {
                    x: INITIAL_CAMERA_X as int,
                    y: CAMERA_HALF_HEIGHT as int,
                    z: INITIAL_CAMERA_Z as int,
                })
                &&& match e.body {
                    Some(pb) => {
                        &&& pb.0 == old(world).next_collider_handle + 6
                        &&& final(world).has_collider(pb.0)
                        &&& final(world).collider(pb.0).half_height == CAMERA_HALF_HEIGHT
                        &&& final(world).collider(pb.0).body == old(world).next_body_handle + 5
                        &&& final(world).has_body(final(world).collider(pb.0).body)
                        &&& !final(world).body(final(world).collider(pb.0).body).dynamic
                        &&& final(world).body(
                            final(world).collider(pb.0).body,
                        ).pose.translation@ === (V3 {
                            x: INITIAL_CAMERA_X as int,
                            y: CAMERA_HALF_HEIGHT as int,
                            z: INITIAL_CAMERA_Z as int,
                        })
                    },
                    None => false,
                }
            }),
            // The camera: at standing height over the self body, observing
            // along the positive x axis.
            ({
                let e = final(scene).entries@[7];
                &&& e.id == old(scene).next_id + 7
                &&& e.camera
                &&& !e.camera_self
                &&& e.body is None
                &&& e.transform.translation@ === (V3 {
                    x: INITIAL_CAMERA_X as int,
                    y: CAMERA_HEIGHT as int,
                    z: INITIAL_CAMERA_Z as int,
                })
                &&& e.transform.rotation@ === camera_rotation_s()
            }),
    {
        self.create_floor(scene, world, floor_material);
        self.prepare_cubes(cube_mesh);
        let mut i: u64 = 0;
        while i < CUBE_COUNT
            invariant
                self.cube_mesh === Some(cube_mesh),
                i <= CUBE_COUNT,
                cube_materials@.len() == CUBE_COUNT,
                scene.wf(),
                world.wf(),
                scene.entries@.len() == 1 + i,
                world.bodies@.len() == i,
                world.colliders@.len() == 1 + i,
                world.force_generators@.len() == 0,
                world.gravity == old(world).gravity,
                world.timestep == old(world).timestep,
                scene.next_id == old(scene).next_id + 1 + i,
                world.next_body_handle == old(world).next_body_handle + i,
                world.next_collider_handle == old(world).next_collider_handle + 1 + i,
                old(scene).next_id + 8 < u64::MAX,
                old(world).next_body_handle + 8 < u64::MAX,
                old(world).next_collider_handle + 8 < u64::MAX,
                scene.entries@[0] === (EntityRec {
                    id: old(scene).next_id,
                    transform: Pose {
                        translation: Vec3 { x: 0, y: 0, z: 0 },
                        rotation: Mat3 {
                            r0: Vec3 { x: FX_ONE, y: 0, z: 0 },
                            r1: Vec3 { x: 0, y: FX_ONE, z: 0 },
                            r2: Vec3 { x: 0, y: 0, z: FX_ONE },
                        },
                    },
                    material: Some(floor_material),
                    grabbable: None,
                    mergeable: false,
                    loading: false,
                    camera_self: false,
                    camera: false,
                    body: None,
                }),
                world.colliders@[0] === (Collider {
                    handle: old(world).next_collider_handle,
                    body: 0,
                    half_height: 0,
                }),
                forall|k: int|
                    0 <= k < i ==> {
                        let e = #[trigger] scene.entries@[1 + k];
                        &&& e.id == old(scene).next_id + 1 + k
                        &&& e.material === Some(cube_materials@[k].default_material)
                        &&& e.grabbable === Some(cube_materials@[k])
                        &&& !e.mergeable
                        &&& !e.loading
                        &&& e.transform.translation@ === cube_position_s(k)
                        &&& match e.body {
                            Some(pb) => pb.0 == old(world).next_collider_handle + 1 + k,
                            None => false,
                        }
                    },
                forall|k: int|
                    0 <= k < i ==> {
                        let b = #[trigger] world.bodies@[k];
                        &&& b.handle == old(world).next_body_handle + k
                        &&& b.dynamic
                        &&& b.pose.translation@ === cube_position_s(k)
                        &&& b.linvel@ === (V3 { x: 0, y: 0, z: 0 })
                    },
                forall|k: int|
                    0 <= k < i ==> {
                        let c = #[trigger] world.colliders@[1 + k];
                        &&& c.handle == old(world).next_collider_handle + 1 + k
                        &&& c.body == old(world).next_body_handle + k
                        &&& c.half_height == CUBE_HALF
                    },
                forall|k: int|
                    0 <= k < scene.entries@.len() ==> !(#[trigger] scene.entries@[k]).camera_self
                        && !scene.entries@[k].camera,
                forall|k: int, l: int|
                    0 <= k < l < scene.entries@.len() ==> !(scene.entries@[k].body is Some
                        && scene.entries@[k].body === scene.entries@[l].body),
                forall|k: int|
                    0 <= k < scene.entries@.len() ==> match (
                    #[trigger] scene.entries@[k]).body {
                        Some(pb) => world.has_collider(pb.0),
                        None => true,
                    },
            decreases CUBE_COUNT - i,
        {
            let g: Grabbable = cube_materials[i as usize];
            let ghost pre_colliders = world.colliders@;
            self.create_cube(scene, world, i, g);
            proof {
                assert forall|k: int|
                    0 <= k < scene.entries@.len() implies match (
                #[trigger] scene.entries@[k]).body {
                    Some(pb) => world.has_collider(pb.0),
                    None => true,
                } by {
                    if k < scene.entries@.len() - 1 {
                        match scene.entries@[k].body {
                            Some(pb) => {
                                let w: int = choose|w: int|
                                    0 <= w < pre_colliders.len() && pre_colliders[w].handle
                                        == pb.0;
                                assert(world.colliders@[w].handle == pb.0);
                            },
                            None => {},
                        }
                    } else {
                        let n: int = world.colliders@.len() - 1;
                        assert(world.colliders@[n].handle == world.colliders@.last().handle);
                    }
                }
            }
            i = i + 1;
        }
        // One settling step before gravity is switched on, then gravity.
        let ghost w1 = *world;
        world.step();
        proof {
            // Zero gravity, zero velocities and no force generators: the
            // settling step moves nothing.
            crate::fx::lemma_fx_identity(w1.timestep as int);
            assert forall|k: int| 0 <= k < w1.bodies@.len() implies {
                &&& world.bodies@[k].pose.translation@ === w1.bodies@[k].pose.translation@
                &&& world.bodies@[k].linvel@ === (V3 { x: 0, y: 0, z: 0 })
            } by {
                assert(MyWorld::body_ok(w1.bodies@[k]));
            }
        }
        let gravity: Vec3 = Vec3 { x: 0, y: -GRAVITY_Y, z: 0 };
        world.set_gravity(gravity);
        self.create_self(scene, world);
        self.create_camera(scene);
        proof {
            let nb0: int = old(world).next_body_handle as int;
            let nc0: int = old(world).next_collider_handle as int;
            // Pin every collider and body lookup to its index.
            assert forall|k: int| 0 <= k < 7 implies world.has_collider(
                world.colliders@[k].handle,
            ) && world.collider_idx(world.colliders@[k].handle) == k by {
                let h = world.colliders@[k].handle;
                assert(world.has_collider(h));
                let w: int = world.collider_idx(h);
                assert(0 <= w < world.colliders@.len() && world.colliders@[w].handle == h);
                if w < k {
                    assert(world.colliders@[w].handle != world.colliders@[k].handle);
                    assert(false);
                } else if k < w {
                    assert(world.colliders@[k].handle != world.colliders@[w].handle);
                    assert(false);
                }
            }
            assert forall|k: int| 0 <= k < 6 implies world.has_body(world.bodies@[k].handle)
                && world.body_idx(world.bodies@[k].handle) == k by {
                let h = world.bodies@[k].handle;
                assert(world.has_body(h));
                let w: int = world.body_idx(h);
                assert(0 <= w < world.bodies@.len() && world.bodies@[w].handle == h);
                if w < k {
                    assert(world.bodies@[w].handle != world.bodies@[k].handle);
                    assert(false);
                } else if k < w {
                    assert(world.bodies@[k].handle != world.bodies@[w].handle);
                    assert(false);
                }
            }
            assert forall|k: int| 0 <= k < 5 implies {
                let e = #[trigger] scene.entries@[1 + k];
                match e.body {
                    Some(pb) => {
                        &&& pb.0 == nc0 + 1 + k
                        &&& world.has_collider(pb.0)
                        &&& world.collider(pb.0).half_height == CUBE_HALF
                        &&& world.collider(pb.0).body == nb0 + k
                        &&& world.has_body(world.collider(pb.0).body)
                        &&& world.body(world.collider(pb.0).body).dynamic
                        &&& world.body(world.collider(pb.0).body).pose.translation@
                            === cube_position_s(k)
                    },
                    None => false,
                }
            } by {
                let e = scene.entries@[1 + k];
                match e.body {
                    Some(pb) => {
                        assert(world.colliders@[1 + k].handle == pb.0);
                        assert(world.collider_idx(pb.0) == 1 + k);
                        assert(world.bodies@[k].handle == nb0 + k);
                        assert(world.body_idx(world.bodies@[k].handle) == k);
                    },
                    None => {},
                }
            }
            // The self body resolves.
            let n: int = scene.entries@.len() - 2;
            assert(scene.entries@[n].camera_self && scene.entries@[n].body is Some);
            assert(has_self_body_s(*scene));
            let w: int = crate::locomotion::self_idx_s(*scene);
            assert(0 <= w < scene.entries@.len() && scene.entries@[w].camera_self
                && scene.entries@[w].body is Some);
            assert(w == n);
            match scene.entries@[6].body {
                Some(pb) => {
                    assert(world.colliders@[6].handle == pb.0);
                    assert(world.collider_idx(pb.0) == 6);
                    assert(world.bodies@[5].handle == nb0 + 5);
                    assert(world.body_idx(world.bodies@[5].handle) == 5);
                },
                None => {
                    assert(false);
                },
            }
            assert(scene.entries@[scene.entries@.len() - 1].camera);
        }
    }
}

} // verus!
