//! The renderer: projects every collider of a world into a flat list of
//! drawing commands. Only colliders that resolve to a live dynamic body and
//! carry a box shape produce a draw; everything else is enumerated and
//! skipped. The command list is what a drawing surface executes.

use vstd::prelude::*;
use crate::geom::ShapeDesc;
use crate::world::{body_wf, collider_wf, BodyRef, World, WorldModel};

verus! {

/// Pixels per world unit at which a drawing surface renders the commands.
pub const PIXELS_PER_UNIT: i64 = 100;

/// One drawing-surface operation. Coordinates are world milli-units; the
/// surface scales them by `PIXELS_PER_UNIT` per world unit.
#[derive(Clone, Copy, Debug, PartialEq, Eq, Structural)]
pub enum RenderCmd {
    /// Clear the whole surface.
    Clear,
    /// Shift everything drawn afterwards right by the camera offset.
    Translate { dx: i64 },
    /// Fill a rectangle of size (2 half_w) x (2 half_h) whose corner sits at
    /// (x, y), rotated by `angle` (micro-radians) about that corner.
    Rect { x: i64, y: i64, half_w: i64, half_h: i64, angle: i64 },
    /// Restore the transform state saved before the translation.
    Restore,
}

/// What the collider at index `k` contributes: one rectangle if it resolves
/// to a live dynamic body and carries a box shape, nothing otherwise.
pub open spec fn draw_cmd_of(w: WorldModel, k: int) -> Seq<RenderCmd> {
    let c = w.colliders[k];
    match c.parent {
        BodyRef::Dynamic { index } => {
            if index < w.bodies.len() {
                let b = w.bodies[index as int];
                match c.shape {
                    ShapeDesc::Box { half_w, half_h } => seq![
                        RenderCmd::Rect {
                            x: (b.pos_x - half_w) as i64,
                            y: (b.pos_y - half_h) as i64,
                            half_w,
                            half_h,
                            angle: b.angle,
                        },
                    ],
                    ShapeDesc::Ball { .. } => Seq::empty(),
                }
            } else {
                Seq::empty()
            }
        },
        BodyRef::Ground => Seq::empty(),
    }
}

/// The draws contributed by the first `n` colliders, in enumeration order.
pub open spec fn draw_cmds_upto(w: WorldModel, n: int) -> Seq<RenderCmd>
    decreases n,
{
    if n <= 0 {
        Seq::empty()
    } else {
        draw_cmds_upto(w, n - 1) + draw_cmd_of(w, n - 1)
    }
}

/// The full command list a render pass produces: one clear, the camera
/// translation, every collider's contribution, and the transform restore.
pub open spec fn render_cmds(w: WorldModel, x_offset: int) -> Seq<RenderCmd> {
    seq![RenderCmd::Clear, RenderCmd::Translate { dx: x_offset as i64 }] + draw_cmds_upto(
        w,
        w.colliders.len() as int,
    ) + seq![RenderCmd::Restore]
}

/// Projects every collider of `world`, in arena order, to its draws.
pub fn render_world(world: &World) -> (cmds: Vec<RenderCmd>)
    requires
        world@.wf(),
    ensures
        cmds@ == draw_cmds_upto(world@, world@.colliders.len() as int),
{
    let mut cmds: Vec<RenderCmd> = Vec::new();
    let n = world.num_colliders();
    let mut k: usize = 0;
    while k < n
        invariant
            world@.wf(),
            n == world@.colliders.len(),
            k <= n,
            cmds@ == draw_cmds_upto(world@, k as int),
        decreases n - k,
    {
        let c = world.collider_idx(k);
        proof {
            assert(collider_wf(world@.colliders[k as int], world@.bodies.len() as int));
        }
        match c.parent {
            BodyRef::Dynamic { index } => {
                if index < world.num_bodies() {
                    let b = world.body_idx(index);
                    proof {
                        assert(body_wf(world@.bodies[index as int]));
                    }
                    match c.shape {
                        ShapeDesc::Box { half_w, half_h } => {
                            let rx = b.pos_x - half_w;
                            let ry = b.pos_y - half_h;
                            cmds.push(
                                RenderCmd::Rect { x: rx, y: ry, half_w, half_h, angle: b.angle },
                            );
                        },
                        ShapeDesc::Ball { .. } => {},
                    }
                }
            },
            BodyRef::Ground => {},
        }
        proof {
            assert(cmds@ =~= draw_cmds_upto(world@, k as int + 1));
        }
        k = k + 1;
    }
    cmds
}

/// How many clears a command list holds.
pub open spec fn clear_count(s: Seq<RenderCmd>) -> nat
    decreases s.len(),
{
    if s.len() == 0 {
        0
    } else {
        clear_count(s.drop_last()) + if s.last() is Clear {
            1nat
        } else {
            0nat
        }
    }
}

/// How many draw calls (filled rectangles) a command list holds.
pub open spec fn rect_count(s: Seq<RenderCmd>) -> nat
    decreases s.len(),
{
    if s.len() == 0 {
        0
    } else {
        rect_count(s.drop_last()) + if s.last() is Rect {
            1nat
        } else {
            0nat
        }
    }
}

proof fn lemma_counts_add(s: Seq<RenderCmd>, t: Seq<RenderCmd>)
    ensures
        clear_count(s + t) == clear_count(s) + clear_count(t),
        rect_count(s + t) == rect_count(s) + rect_count(t),
    decreases t.len(),
{
    if t.len() == 0 {
        assert(s + t =~= s);
    } else {
        assert((s + t).drop_last() =~= s + t.drop_last());
        lemma_counts_add(s, t.drop_last());
    }
}

proof fn lemma_counts_singleton(c: RenderCmd)
    ensures
        clear_count(seq![c]) == if c is Clear {
            1nat
        } else {
            0nat
        },
        rect_count(seq![c]) == if c is Rect {
            1nat
        } else {
            0nat
        },
{
    let s = seq![c];
    assert(s.len() == 1);
    assert(s.last() == c);
    assert(s.drop_last() =~= Seq::<RenderCmd>::empty());
    assert(clear_count(s) == clear_count(Seq::<RenderCmd>::empty()) + if c is Clear { 1nat } else { 0nat });
    assert(rect_count(s) == rect_count(Seq::<RenderCmd>::empty()) + if c is Rect { 1nat } else { 0nat });
}

proof fn lemma_draw_cmd_of_counts(w: WorldModel, k: int)
    ensures
        clear_count(draw_cmd_of(w, k)) == 0,
        rect_count(draw_cmd_of(w, k)) <= 1,
        !(w.colliders[k].shape is Box) ==> rect_count(draw_cmd_of(w, k)) == 0,
{
    let d = draw_cmd_of(w, k);
    if d.len() > 0 {
        lemma_counts_singleton(d[0]);
        assert(d =~= seq![d[0]]);
    }
}

proof fn lemma_draw_cmds_upto_counts(w: WorldModel, n: int)
    ensures
        clear_count(draw_cmds_upto(w, n)) == 0,
        (forall|k: int| 0 <= k < n ==> !((#[trigger] w.colliders[k]).shape is Box))
            ==> rect_count(draw_cmds_upto(w, n)) == 0,
    decreases n,
{
    if n > 0 {
        lemma_draw_cmds_upto_counts(w, n - 1);
        lemma_counts_add(draw_cmds_upto(w, n - 1), draw_cmd_of(w, n - 1));
        lemma_draw_cmd_of_counts(w, n - 1);
    }
}

/// Every render pass clears the surface exactly once, whatever the world
/// holds.
pub proof fn lemma_render_one_clear(w: WorldModel, x_offset: int)
    ensures
        clear_count(render_cmds(w, x_offset)) == 1,
{
    let head = seq![RenderCmd::Clear, RenderCmd::Translate { dx: x_offset as i64 }];
    let draws = draw_cmds_upto(w, w.colliders.len() as int);
    let tail = seq![RenderCmd::Restore];
    lemma_counts_add(head + draws, tail);
    lemma_counts_add(head, draws);
    lemma_draw_cmds_upto_counts(w, w.colliders.len() as int);
    lemma_counts_singleton(RenderCmd::Restore);
    lemma_counts_singleton(RenderCmd::Translate { dx: x_offset as i64 });
    assert(head.drop_last() =~= seq![RenderCmd::Clear]);
    lemma_counts_singleton(RenderCmd::Clear);
}

/// A render pass over a world with zero colliders performs exactly one clear
/// and zero draw calls.
pub proof fn lemma_render_empty_world(w: WorldModel, x_offset: int)
    requires
        w.colliders.len() == 0,
    ensures
        clear_count(render_cmds(w, x_offset)) == 1,
        rect_count(render_cmds(w, x_offset)) == 0,
{
    lemma_render_one_clear(w, x_offset);
    lemma_render_nonbox_no_draws(w, x_offset);
}

/// A world none of whose colliders carries a box shape is enumerated but
/// yields zero draw calls.
pub proof fn lemma_render_nonbox_no_draws(w: WorldModel, x_offset: int)
    requires
        forall|k: int|
            0 <= k < w.colliders.len() ==> !((#[trigger] w.colliders[k]).shape is Box),
    ensures
        rect_count(render_cmds(w, x_offset)) == 0,
{
    let head = seq![RenderCmd::Clear, RenderCmd::Translate { dx: x_offset as i64 }];
    let draws = draw_cmds_upto(w, w.colliders.len() as int);
    let tail = seq![RenderCmd::Restore];
    lemma_counts_add(head + draws, tail);
    lemma_counts_add(head, draws);
    lemma_draw_cmds_upto_counts(w, w.colliders.len() as int);
    lemma_counts_singleton(RenderCmd::Restore);
    lemma_counts_singleton(RenderCmd::Translate { dx: x_offset as i64 });
    assert(head.drop_last() =~= seq![RenderCmd::Clear]);
    lemma_counts_singleton(RenderCmd::Clear);
}

} // verus!
