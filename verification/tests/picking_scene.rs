use grabsim::components::{Grabbable, PhysicsBody};
use grabsim::fx::FX_ONE;
use grabsim::picking::{find_current_ray, find_pointed_object, RayHit, TargetTag};
use grabsim::scene::{EntityRec, Scene};
use grabsim::vec3::{Mat3, Pose, Vec3};

fn identity() -> Mat3 {
    Mat3 {
        r0: Vec3 { x: FX_ONE, y: 0, z: 0 },
        r1: Vec3 { x: 0, y: FX_ONE, z: 0 },
        r2: Vec3 { x: 0, y: 0, z: FX_ONE },
    }
}

fn origin_pose() -> Pose {
    Pose { translation: Vec3 { x: 0, y: 0, z: 0 }, rotation: identity() }
}

fn grabbable_entity(scene: &mut Scene, collider: u64) -> u64 {
    let template = EntityRec {
        grabbable: Some(Grabbable { default_material: 1, selected_material: 2 }),
        body: Some(PhysicsBody(collider)),
        ..Scene::blank(origin_pose())
    };
    scene.spawn(template)
}

fn plain_entity(scene: &mut Scene, collider: u64) -> u64 {
    let template = EntityRec {
        body: Some(PhysicsBody(collider)),
        ..Scene::blank(origin_pose())
    };
    scene.spawn(template)
}

#[test]
fn ray_follows_negative_local_z() {
    // Identity camera: forward is +z, so the pick ray points along -z.
    let ray = find_current_ray(&origin_pose());
    assert_eq!(ray.origin, Vec3 { x: 0, y: 0, z: 0 });
    assert_eq!(ray.direction, Vec3 { x: 0, y: 0, z: -FX_ONE });
    // A camera observing along +x (third column (1,0,0)) looks toward -x.
    let looking_x = Pose {
        translation: Vec3 { x: 8 * FX_ONE, y: 0, z: 4 * FX_ONE },
        rotation: Mat3 {
            r0: Vec3 { x: 0, y: 0, z: FX_ONE },
            r1: Vec3 { x: 0, y: FX_ONE, z: 0 },
            r2: Vec3 { x: -FX_ONE, y: 0, z: 0 },
        },
    };
    let ray2 = find_current_ray(&looking_x);
    assert_eq!(ray2.direction, Vec3 { x: -FX_ONE, y: 0, z: 0 });
}

#[test]
fn picks_minimum_time_of_impact() {
    let mut scene = Scene::new();
    let near = grabbable_entity(&mut scene, 10);
    let far = grabbable_entity(&mut scene, 11);
    let hits = vec![
        RayHit { entity: far, toi: 3 * FX_ONE },
        RayHit { entity: near, toi: FX_ONE },
    ];
    let picked = find_pointed_object(&scene, &hits, TargetTag::Grab).unwrap();
    assert_eq!(picked.entity, near);
    assert_eq!(picked.toi, FX_ONE);
}

#[test]
fn object_behind_another_is_never_selected() {
    let mut scene = Scene::new();
    let front = grabbable_entity(&mut scene, 10);
    let behind = grabbable_entity(&mut scene, 11);
    let hits = vec![
        RayHit { entity: behind, toi: 5 * FX_ONE },
        RayHit { entity: front, toi: 2 * FX_ONE },
        RayHit { entity: behind, toi: 5 * FX_ONE },
    ];
    let picked = find_pointed_object(&scene, &hits, TargetTag::Grab).unwrap();
    assert_ne!(picked.entity, behind);
    assert_eq!(picked.entity, front);
}

#[test]
fn no_hits_returns_none() {
    let mut scene = Scene::new();
    grabbable_entity(&mut scene, 10);
    let hits: Vec<RayHit> = vec![];
    assert!(find_pointed_object(&scene, &hits, TargetTag::Grab).is_none());
}

#[test]
fn ineligible_hits_are_ignored() {
    let mut scene = Scene::new();
    let untagged = plain_entity(&mut scene, 10);
    let tagged = grabbable_entity(&mut scene, 11);
    let ghost_hit = 999u64;
    let hits = vec![
        RayHit { entity: untagged, toi: FX_ONE },
        RayHit { entity: ghost_hit, toi: FX_ONE },
        RayHit { entity: tagged, toi: 4 * FX_ONE },
    ];
    // The nearer hits lack the tag (or the entity), so the tagged one
    // wins even though it is farther.
    let picked = find_pointed_object(&scene, &hits, TargetTag::Grab).unwrap();
    assert_eq!(picked.entity, tagged);
    // Under the merge tag nothing here is eligible.
    assert!(find_pointed_object(&scene, &hits, TargetTag::Merge).is_none());
}

#[test]
fn equal_impacts_pick_the_first() {
    let mut scene = Scene::new();
    let a = grabbable_entity(&mut scene, 10);
    let b = grabbable_entity(&mut scene, 11);
    let hits = vec![
        RayHit { entity: a, toi: 2 * FX_ONE },
        RayHit { entity: b, toi: 2 * FX_ONE },
    ];
    let picked = find_pointed_object(&scene, &hits, TargetTag::Grab).unwrap();
    assert_eq!(picked.entity, a);
}

#[test]
fn registry_joins_both_directions() {
    let mut scene = Scene::new();
    let e = grabbable_entity(&mut scene, 42);
    let other = plain_entity(&mut scene, 43);
    assert_eq!(scene.body_for(e), Some(42));
    assert_eq!(scene.body_for(other), Some(43));
    assert_eq!(scene.body_for(999), None);
    assert_eq!(scene.entity_for(42), Some(e));
    assert_eq!(scene.entity_for(43), Some(other));
    assert_eq!(scene.entity_for(7), None);
}
