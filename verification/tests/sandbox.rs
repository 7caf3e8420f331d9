use sandbox2d::errors::Error;
use sandbox2d::game::{Game, GameConfig};
use sandbox2d::geom::{make_box_shape, ShapeDesc};
use sandbox2d::input::{listen_for_keys, unsubscribe, InputRegistry};
use sandbox2d::render::{render_world, RenderCmd};
use sandbox2d::scene::{build_box_grid_scene, make_ground, make_simple_collider, SimpleBox};
use sandbox2d::world::{BodyHandle, BodyRef, ColliderHandle, World};

fn default_config() -> GameConfig {
    GameConfig { width: Some(800), height: Some(600) }
}

fn count_ground_colliders(w: &World) -> usize {
    let mut count = 0;
    for i in 0..w.num_colliders() {
        let c = w.collider_at(ColliderHandle { index: i }).unwrap();
        if matches!(c.parent, BodyRef::Ground) {
            count += 1;
        }
    }
    count
}

#[test]
fn box_shape_keeps_extents() {
    let s = make_box_shape(150, 250).unwrap();
    assert_eq!(s, ShapeDesc::Box { half_w: 150, half_h: 250 });
}

#[test]
fn box_shape_rejects_degenerate_extents() {
    assert_eq!(make_box_shape(0, 100), Err(Error::NonPositiveExtent));
    assert_eq!(make_box_shape(100, 0), Err(Error::NonPositiveExtent));
    assert_eq!(make_box_shape(-5, -5), Err(Error::NonPositiveExtent));
}

#[test]
fn dynamic_body_reports_exact_half_extents() {
    let mut w = World::new();
    let s = make_box_shape(150, 250).unwrap();
    let b = w.add_rigid_body(0, 0, 0, s, 100);
    assert_eq!(w.body_shape(b).unwrap(), ShapeDesc::Box { half_w: 150, half_h: 250 });
}

#[test]
fn simple_box_triple_stays_consistent() {
    let mut w = World::new();
    let sb = SimpleBox::new(&mut w, 1000, 2000, 100, 200).unwrap();
    assert_eq!(sb.shape, ShapeDesc::Box { half_w: 100, half_h: 200 });
    assert_eq!(w.body_shape(sb.body).unwrap(), sb.shape);
    let c = w.collider_at(sb.collider).unwrap();
    assert_eq!(c.shape, sb.shape);
    assert_eq!(c.parent, BodyRef::Dynamic { index: sb.body.index });
    assert_eq!(c.margin, 10);
    assert_eq!(w.body_pose(sb.body).unwrap(), (1000, 2000, 0));
}

#[test]
fn simple_box_rejects_degenerate_extents() {
    let mut w = World::new();
    assert_eq!(SimpleBox::new(&mut w, 0, 0, 0, 100), Err(Error::NonPositiveExtent));
    assert_eq!(w.num_bodies(), 0);
    assert_eq!(w.num_colliders(), 0);
}

#[test]
fn pan_accumulates_additively() {
    let mut a = Game::new(&default_config());
    a.pan(5);
    a.pan(7);
    let mut b = Game::new(&default_config());
    b.pan(12);
    assert_eq!(a.x_offset(), b.x_offset());
    assert_eq!(a.x_offset(), 12);
    a.pan(-20);
    assert_eq!(a.x_offset(), -8);
}

#[test]
fn step_advances_time_monotonically() {
    let mut g = Game::new(&default_config());
    assert_eq!(g.world().ticks(), 0);
    let mut last = 0;
    for _ in 0..3 {
        g.step();
        let now = g.world().ticks();
        assert!(now > last);
        last = now;
    }
    assert_eq!(last, 3);
}

#[test]
fn grid_scene_one_by_one() {
    let mut w = World::new();
    build_box_grid_scene(&mut w, 1, 1, 100, 100).unwrap();
    assert_eq!(w.num_bodies(), 1);
    assert_eq!(w.num_colliders(), 2);
    assert_eq!(count_ground_colliders(&w), 1);
}

#[test]
fn grid_scene_twenty_five_square() {
    let mut w = World::new();
    build_box_grid_scene(&mut w, 25, 25, 100, 100).unwrap();
    assert_eq!(w.num_bodies(), 625);
    assert_eq!(w.num_colliders(), 626);
    assert_eq!(count_ground_colliders(&w), 1);
}

#[test]
fn grid_scene_single_row() {
    let mut w = World::new();
    build_box_grid_scene(&mut w, 1, 25, 100, 100).unwrap();
    assert_eq!(w.num_bodies(), 25);
    assert_eq!(w.num_colliders(), 26);
    assert_eq!(count_ground_colliders(&w), 1);
}

#[test]
fn grid_scene_rejects_degenerate_extents() {
    let mut w = World::new();
    assert_eq!(build_box_grid_scene(&mut w, 2, 2, 0, 100), Err(Error::NonPositiveExtent));
    assert_eq!(w.num_bodies(), 0);
    assert_eq!(w.num_colliders(), 0);
}

#[test]
fn grid_scene_exact_positions() {
    let mut w = World::new();
    build_box_grid_scene(&mut w, 25, 25, 100, 100).unwrap();
    // column 0, row 0: x = -half_w * cols, y = (3 * half_h) / 2
    assert_eq!(w.body_pose(BodyHandle { index: 0 }).unwrap(), (-2500, 150, 0));
    // column 0, row 1
    assert_eq!(w.body_pose(BodyHandle { index: 1 }).unwrap(), (-2500, 450, 0));
    // column 1, row 0 sits one box width to the right
    assert_eq!(w.body_pose(BodyHandle { index: 25 }).unwrap(), (-2300, 150, 0));
    assert_eq!(w.gravity(), (0, 9810));
}

#[test]
fn ground_collider_record() {
    let mut w = World::new();
    let h = make_ground(&mut w);
    let c = w.collider_at(h).unwrap();
    assert_eq!(c.parent, BodyRef::Ground);
    assert_eq!(c.margin, 10);
    assert_eq!(c.local_x, 0);
    assert_eq!(c.local_y, 9000);
    assert_eq!(c.shape, ShapeDesc::Box { half_w: 124_990, half_h: 990 });
}

#[test]
fn setup_scene_builds_default_grid_once() {
    let mut g = Game::new(&default_config());
    g.setup_boxes_scene().unwrap();
    assert!(g.scene_built());
    assert_eq!(g.world().num_bodies(), 625);
    assert_eq!(g.world().num_colliders(), 626);
    assert_eq!(g.setup_boxes_scene(), Err(Error::SceneAlreadyBuilt));
    assert_eq!(g.world().num_bodies(), 625);
}

#[test]
fn render_empty_world_clears_once_draws_nothing() {
    let g = Game::new(&default_config());
    let cmds = g.render_scene();
    assert_eq!(cmds.len(), 3);
    assert_eq!(cmds[0], RenderCmd::Clear);
    assert_eq!(cmds[1], RenderCmd::Translate { dx: 0 });
    assert_eq!(cmds[2], RenderCmd::Restore);
    assert_eq!(cmds.iter().filter(|c| matches!(c, RenderCmd::Clear)).count(), 1);
    assert_eq!(cmds.iter().filter(|c| matches!(c, RenderCmd::Rect { .. })).count(), 0);
}

#[test]
fn render_translates_by_accumulated_pan() {
    let mut g = Game::new(&default_config());
    g.pan(30);
    g.pan(12);
    let cmds = g.render_scene();
    assert_eq!(cmds[1], RenderCmd::Translate { dx: 42 });
}

#[test]
fn render_box_collider_exact_rectangle() {
    let mut w = World::new();
    let sb = SimpleBox::new(&mut w, 1000, 2000, 100, 200).unwrap();
    let draws = render_world(&w);
    assert_eq!(
        draws,
        vec![RenderCmd::Rect { x: 900, y: 1800, half_w: 100, half_h: 200, angle: 0 }]
    );
    w.set_body_pose(sb.body, 5000, 7000, 123).unwrap();
    let draws = render_world(&w);
    assert_eq!(
        draws,
        vec![RenderCmd::Rect { x: 4900, y: 6800, half_w: 100, half_h: 200, angle: 123 }]
    );
}

#[test]
fn render_skips_non_box_collider() {
    let mut w = World::new();
    let ball = ShapeDesc::Ball { radius: 100 };
    let b = w.add_rigid_body(0, 0, 0, ball, 100);
    make_simple_collider(&mut w, ball, b).unwrap();
    assert_eq!(w.num_colliders(), 1);
    let draws = render_world(&w);
    assert_eq!(draws.len(), 0);
}

#[test]
fn render_skips_ground_collider() {
    let mut w = World::new();
    make_ground(&mut w);
    assert_eq!(render_world(&w).len(), 0);
}

#[test]
fn stale_handles_are_rejected() {
    let mut w = World::new();
    assert_eq!(w.set_body_pose(BodyHandle { index: 0 }, 0, 0, 0), Err(Error::StaleHandle));
    assert_eq!(w.body_shape(BodyHandle { index: 3 }), Err(Error::StaleHandle));
    assert_eq!(w.body_pose(BodyHandle { index: 3 }), Err(Error::StaleHandle));
    assert_eq!(w.collider_at(ColliderHandle { index: 0 }), Err(Error::StaleHandle));
    let ball = ShapeDesc::Ball { radius: 50 };
    assert_eq!(
        make_simple_collider(&mut w, ball, BodyHandle { index: 9 }),
        Err(Error::StaleHandle)
    );
}

#[test]
fn listen_for_keys_without_document_is_environment_error() {
    let mut reg = InputRegistry::new();
    let r = listen_for_keys(&mut reg, false);
    assert_eq!(r, Err(Error::NoDocument));
    assert!(r.unwrap_err().is_environment());
    assert_eq!(reg.len(), 0);
}

#[test]
fn listen_for_keys_with_document_registers_subscription() {
    let mut reg = InputRegistry::new();
    let h = listen_for_keys(&mut reg, true).unwrap();
    assert_eq!(h.id, 0);
    assert!(reg.is_active(h));
    assert_eq!(reg.len(), 1);
    unsubscribe(&mut reg, h).unwrap();
    assert!(!reg.is_active(h));
    assert_eq!(unsubscribe(&mut reg, h), Err(Error::StaleHandle));
}

#[test]
fn logic_errors_are_not_environment_errors() {
    assert!(!Error::NonPositiveExtent.is_environment());
    assert!(!Error::SceneAlreadyBuilt.is_environment());
    assert!(!Error::StaleHandle.is_environment());
    assert!(Error::NoDocument.is_environment());
}
