use grabsim::components::PhysicsBody;
use grabsim::fx::FX_ONE;
use grabsim::locomotion::{follow_self, LocomotionInput, TranslationSystem};
use grabsim::scene::{EntityRec, Scene};
use grabsim::stepper::{PhysicsSystem, MAX_STEPS_PER_RUN};
use grabsim::vec3::{Mat3, Pose, Vec3};
use grabsim::world::MyWorld;

fn identity() -> Mat3 {
    Mat3 {
        r0: Vec3 { x: FX_ONE, y: 0, z: 0 },
        r1: Vec3 { x: 0, y: FX_ONE, z: 0 },
        r2: Vec3 { x: 0, y: 0, z: FX_ONE },
    }
}

fn pose_at(x: i64, y: i64, z: i64) -> Pose {
    Pose { translation: Vec3 { x, y, z }, rotation: identity() }
}

/// A kinematic self body standing at the origin, with its camera.
fn setup_self() -> (Scene, MyWorld, u64) {
    let mut world = MyWorld::default();
    let bh = world.add_rigid_body(pose_at(0, 58982, 0), false);
    let ch = world.add_collider(bh, 58982);
    let mut scene = Scene::new();
    scene.spawn(EntityRec {
        camera_self: true,
        body: Some(PhysicsBody(ch)),
        ..Scene::blank(pose_at(0, 58982, 0))
    });
    scene.spawn(EntityRec { camera: true, ..Scene::blank(pose_at(0, 117964, 0)) });
    (scene, world, ch)
}

fn focused(move_x: i64, move_z: i64, running: bool) -> LocomotionInput {
    LocomotionInput { move_x, move_z, running, focused: true }
}

#[test]
fn ten_second_stall_runs_at_most_the_cap() {
    let mut world = MyWorld::default();
    let mut scene = Scene::new();
    let mut driver = PhysicsSystem::new();
    // Ten seconds of backlog arrive at once.
    let steps = driver.run(&mut world, &mut scene, 10 * FX_ONE);
    assert_eq!(steps, MAX_STEPS_PER_RUN);
    // The remainder survives in the accumulator.
    assert_eq!(driver.time_accumulator, 10 * FX_ONE - 4 * 1092);
}

#[test]
fn accumulator_carries_partial_steps_across_frames() {
    let mut world = MyWorld::default();
    let mut scene = Scene::new();
    let mut driver = PhysicsSystem::new();
    // 600 fixed-point seconds-ticks: less than one 1092-tick timestep.
    assert_eq!(driver.run(&mut world, &mut scene, 600), 0);
    assert_eq!(driver.time_accumulator, 600);
    // The next 600 complete one step, leaving 108.
    assert_eq!(driver.run(&mut world, &mut scene, 600), 1);
    assert_eq!(driver.time_accumulator, 108);
}

#[test]
fn three_whole_steps_run_unbounded_by_the_cap() {
    let mut world = MyWorld::default();
    let mut scene = Scene::new();
    let mut driver = PhysicsSystem::new();
    assert_eq!(driver.run(&mut world, &mut scene, 3 * 1092 + 7), 3);
    assert_eq!(driver.time_accumulator, 7);
}

#[test]
fn write_back_projects_body_pose_into_transform() {
    let (mut scene, mut world, ch) = setup_self();
    let bh = world.collider_body_handle(ch).unwrap();
    world.set_linear_velocity(bh, Vec3 { x: FX_ONE, y: 0, z: 0 });
    let mut driver = PhysicsSystem::new();
    let steps = driver.run(&mut world, &mut scene, 1092);
    assert_eq!(steps, 1);
    // One step at velocity 1 moves the body by one timestep's worth.
    let p = world.body_pose(bh).unwrap();
    assert_eq!(p.translation, Vec3 { x: 1092, y: 58982, z: 0 });
    let i = scene.find_index(0).unwrap();
    assert_eq!(scene.entries[i].transform.translation, p.translation);
}

#[test]
fn gravity_pulls_dynamic_bodies_only() {
    let mut world = MyWorld::default();
    world.set_gravity(Vec3 { x: 0, y: -642908, z: 0 });
    let dynamic = world.add_rigid_body(pose_at(0, 5 * FX_ONE, 0), true);
    let kinematic = world.add_rigid_body(pose_at(0, 5 * FX_ONE, 0), false);
    world.step();
    let dv = world.body_linear_velocity(dynamic).unwrap();
    let kv = world.body_linear_velocity(kinematic).unwrap();
    // One timestep of gravity: -9.81 * 1092 / 65536 ticks.
    assert_eq!(dv, Vec3 { x: 0, y: -10712, z: 0 });
    assert_eq!(kv, Vec3 { x: 0, y: 0, z: 0 });
    let dp = world.body_pose(dynamic).unwrap();
    assert!(dp.translation.y < 5 * FX_ONE);
    let kp = world.body_pose(kinematic).unwrap();
    assert_eq!(kp.translation.y, 5 * FX_ONE);
}

#[test]
fn walking_forward_moves_at_walking_speed() {
    let (mut scene, mut world, ch) = setup_self();
    let t = TranslationSystem::default();
    let camera = pose_at(0, 117964, 0);
    // Full deflection on the first axis, walking.
    t.run(&scene, &mut world, &focused(FX_ONE, 0, false), &camera);
    let bh = world.collider_body_handle(ch).unwrap();
    assert_eq!(
        world.body_linear_velocity(bh).unwrap(),
        Vec3 { x: FX_ONE, y: 0, z: 0 },
    );
    // One fixed timestep later the body advanced by speed * timestep.
    world.step();
    let p = world.body_pose(bh).unwrap();
    assert_eq!(p.translation, Vec3 { x: 1092, y: 58982, z: 0 });
}

#[test]
fn running_is_five_times_walking() {
    let (scene, mut world, ch) = setup_self();
    let t = TranslationSystem::default();
    let camera = pose_at(0, 117964, 0);
    t.run(&scene, &mut world, &focused(FX_ONE, 0, true), &camera);
    let bh = world.collider_body_handle(ch).unwrap();
    assert_eq!(
        world.body_linear_velocity(bh).unwrap(),
        Vec3 { x: 5 * FX_ONE, y: 0, z: 0 },
    );
}

#[test]
fn camera_yaw_rotates_the_walking_direction() {
    let (scene, mut world, ch) = setup_self();
    let t = TranslationSystem::default();
    // The camera observes along +x: its local x axis maps to -z.
    let camera = Pose {
        translation: Vec3 { x: 0, y: 117964, z: 0 },
        rotation: Mat3 {
            r0: Vec3 { x: 0, y: 0, z: FX_ONE },
            r1: Vec3 { x: 0, y: FX_ONE, z: 0 },
            r2: Vec3 { x: -FX_ONE, y: 0, z: 0 },
        },
    };
    t.run(&scene, &mut world, &focused(FX_ONE, 0, false), &camera);
    let bh = world.collider_body_handle(ch).unwrap();
    assert_eq!(
        world.body_linear_velocity(bh).unwrap(),
        Vec3 { x: 0, y: 0, z: -FX_ONE },
    );
}

#[test]
fn degenerate_input_skips_the_velocity_update() {
    let (scene, mut world, ch) = setup_self();
    let bh = world.collider_body_handle(ch).unwrap();
    world.set_linear_velocity(bh, Vec3 { x: 9999, y: 0, z: 0 });
    let t = TranslationSystem::default();
    let camera = pose_at(0, 117964, 0);
    // Zero axes cannot be normalized: the frame only zeroes velocities.
    t.run(&scene, &mut world, &focused(0, 0, false), &camera);
    assert_eq!(world.body_linear_velocity(bh).unwrap(), Vec3 { x: 0, y: 0, z: 0 });
}

#[test]
fn unfocused_input_only_zeroes_velocities() {
    let (scene, mut world, ch) = setup_self();
    let bh = world.collider_body_handle(ch).unwrap();
    world.set_linear_velocity(bh, Vec3 { x: 9999, y: 0, z: 0 });
    let t = TranslationSystem::default();
    let camera = pose_at(0, 117964, 0);
    let input = LocomotionInput { move_x: FX_ONE, move_z: 0, running: false, focused: false };
    t.run(&scene, &mut world, &input, &camera);
    assert_eq!(world.body_linear_velocity(bh).unwrap(), Vec3 { x: 0, y: 0, z: 0 });
}

#[test]
fn camera_follows_body_horizontally_and_collider_top_vertically() {
    let (mut scene, mut world, ch) = setup_self();
    let bh = world.collider_body_handle(ch).unwrap();
    world.set_linear_velocity(bh, Vec3 { x: FX_ONE, y: 0, z: 0 });
    world.step();
    follow_self(&mut scene, &world);
    let cam = scene.find_index(1).unwrap();
    let t = scene.entries[cam].transform.translation;
    // Horizontal from the body, vertical from the collider's top.
    assert_eq!(t.x, 1092);
    assert_eq!(t.z, 0);
    assert_eq!(t.y, 58982 + 58982);
}

#[test]
fn diagonal_input_is_normalized_before_scaling() {
    let (scene, mut world, ch) = setup_self();
    let t = TranslationSystem::default();
    let camera = pose_at(0, 117964, 0);
    t.run(&scene, &mut world, &focused(FX_ONE, FX_ONE, false), &camera);
    let bh = world.collider_body_handle(ch).unwrap();
    let v = world.body_linear_velocity(bh).unwrap();
    assert_eq!(v.y, 0);
    assert_eq!(v.x, v.z);
    // Each component is one over the square root of two, within fixed-point
    // rounding of the normalization.
    let expected = 46340;
    assert!((v.x - expected).abs() <= 2, "component was {}", v.x);
}
