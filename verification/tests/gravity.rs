//! Drives the real rigid-body engine from a core-built scene: an unsupported
//! box must fall (its y grows, y is down), come to rest on the ground, and
//! never sink into the ground slab beyond the configured margins.

use nphysics2d::force_generator::DefaultForceGeneratorSet;
use nphysics2d::joint::DefaultJointConstraintSet;
use nphysics2d::nalgebra::Vector2;
use nphysics2d::ncollide2d::shape::{Cuboid, ShapeHandle};
use nphysics2d::object::{
    BodyPartHandle, ColliderDesc, DefaultBodyHandle, DefaultBodySet, DefaultColliderSet, Ground,
    RigidBodyDesc,
};
use nphysics2d::world::{DefaultGeometricalWorld, DefaultMechanicalWorld};

use sandbox2d::scene::build_box_grid_scene;
use sandbox2d::world::{BodyHandle, BodyRef, ColliderHandle, World};

const MILLI: f64 = sandbox2d::geom::MILLIS_PER_UNIT as f64;

#[test]
fn unsupported_box_falls_and_rests_on_ground() {
    // One box, built by the verified scene builder.
    let mut core = World::new();
    build_box_grid_scene(&mut core, 1, 1, 100, 100).unwrap();

    // Mirror the core world into the engine, as the browser shell does.
    let (gx, gy) = core.gravity();
    let mut mechanical =
        DefaultMechanicalWorld::new(Vector2::new(gx as f64 / MILLI, gy as f64 / MILLI));
    let mut geometrical = DefaultGeometricalWorld::new();
    let mut bodies = DefaultBodySet::new();
    let mut colliders = DefaultColliderSet::new();
    let mut constraints = DefaultJointConstraintSet::new();
    let mut forces = DefaultForceGeneratorSet::new();

    let ground = bodies.insert(Ground::new());
    let mut engine_bodies: Vec<DefaultBodyHandle> = Vec::new();
    for i in 0..core.num_bodies() {
        let (x, y, _angle) = core.body_pose(BodyHandle { index: i }).unwrap();
        let rb = RigidBodyDesc::new()
            .translation(Vector2::new(x as f64 / MILLI, y as f64 / MILLI))
            .build();
        engine_bodies.push(bodies.insert(rb));
    }
    let mut ground_top = f64::MAX;
    let mut box_half_h = 0.0;
    let mut margin_sum = 0.0;
    #[allow(unused_assignments)]
    let mut density = 0.0;
    for i in 0..core.num_colliders() {
        let c = core.collider_at(ColliderHandle { index: i }).unwrap();
        let (hw, hh) = match c.shape {
            sandbox2d::geom::ShapeDesc::Box { half_w, half_h } => {
                (half_w as f64 / MILLI, half_h as f64 / MILLI)
            },
            sandbox2d::geom::ShapeDesc::Ball { .. } => unreachable!("grid scenes hold only boxes"),
        };
        let shape = ShapeHandle::new(Cuboid::new(Vector2::new(hw, hh)));
        let margin = c.margin as f64 / MILLI;
        let parent = match c.parent {
            BodyRef::Ground => {
                // Top surface of the slab, margin included.
                ground_top = c.local_y as f64 / MILLI - hh - margin;
                margin_sum += margin;
                ground
            },
            BodyRef::Dynamic { index } => {
                box_half_h = hh;
                margin_sum += margin;
                density = core.body_idx(index).density as f64 / MILLI;
                engine_bodies[index]
            },
        };
        let desc = ColliderDesc::new(shape)
            .margin(margin)
            .density(density)
            .translation(Vector2::new(c.local_x as f64 / MILLI, c.local_y as f64 / MILLI));
        colliders.insert(desc.build(BodyPartHandle(parent, 0)));
    }

    let body = engine_bodies[0];
    let y_at = |bodies: &DefaultBodySet<f64>| -> f64 {
        bodies.rigid_body(body).unwrap().position().translation.vector.y
    };

    let y_start = y_at(&bodies);

    // Free fall at first: y (downwards) grows strictly and monotonically.
    let mut y_prev = y_start;
    for _ in 0..30 {
        mechanical.step(
            &mut geometrical,
            &mut bodies,
            &mut colliders,
            &mut constraints,
            &mut forces,
        );
        let y = y_at(&bodies);
        assert!(y > y_prev, "falling box must keep moving down");
        y_prev = y;
    }

    // Long after the fall the box has settled on the slab.
    for _ in 0..400 {
        mechanical.step(
            &mut geometrical,
            &mut bodies,
            &mut colliders,
            &mut constraints,
            &mut forces,
        );
        // Never sink into the slab beyond the configured margins.
        let bottom = y_at(&bodies) + box_half_h;
        assert!(
            bottom <= ground_top + margin_sum + 1e-6,
            "box bottom {} penetrates ground top {} beyond the margins",
            bottom,
            ground_top
        );
    }
    let y_end = y_at(&bodies);
    assert!(y_end > y_start + 5.0, "box must have fallen towards the ground");
    // Resting: another stretch of simulation moves it no further.
    for _ in 0..60 {
        mechanical.step(
            &mut geometrical,
            &mut bodies,
            &mut colliders,
            &mut constraints,
            &mut forces,
        );
    }
    assert!((y_at(&bodies) - y_end).abs() < 0.01, "box must rest on the ground");
}
