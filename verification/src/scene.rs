//! Scene construction: a `cols x rows` grid of dynamic boxes above one static
//! ground collider, under screen-convention gravity (y grows downward).

use vstd::prelude::*;
use vstd::arithmetic::div_mod::lemma_fundamental_div_mod_converse;
use vstd::pervasive::unreached;
use crate::errors::Error;
use crate::geom::{ShapeDesc, spec_box_shape, make_box_shape, MAX_COORD, MAX_HALF_EXTENT};
use crate::world::{
    BodyHandle, BodyRef, BodyRec, ColliderHandle, ColliderRec, World, WorldModel, spec_add_body,
    spec_add_collider, valid_body_handle,
};

verus! {

/// Clearance margin (milli-units) around collision geometry, damping contact
/// jitter.
pub const MARGIN: i64 = 10;

/// Reference density (milli-mass per square unit) mass properties are derived
/// with.
pub const REFERENCE_DENSITY: i64 = 100;

/// Downward gravity (milli-units per square second), matching screen
/// coordinates.
pub const GRAVITY_Y: i64 = 9810;

/// Ground half-width: the nominal slab width less the margin (milli-units).
pub const GROUND_HALF_W: i64 = 125_000 - MARGIN;

/// Ground half-height: the nominal slab height less the margin (milli-units).
pub const GROUND_HALF_H: i64 = 1_000 - MARGIN;

/// Vertical position of the ground slab (milli-units below the origin).
pub const GROUND_POS_Y: i64 = 9_000;

/// Largest grid dimension the builder accepts; keeps every grid position
/// inside the fixed-point coordinate range.
pub const GRID_MAX: usize = 4096;

/// The ground's collision geometry.
pub open spec fn ground_shape() -> ShapeDesc {
    ShapeDesc::Box { half_w: GROUND_HALF_W, half_h: GROUND_HALF_H }
}

/// The one static collider the scene builder installs.
pub open spec fn ground_collider_rec() -> ColliderRec {
    ColliderRec {
        shape: ground_shape(),
        parent: BodyRef::Ground,
        margin: MARGIN,
        local_x: 0,
        local_y: GROUND_POS_Y,
    }
}

/// Binds the ground slab's geometry to the distinguished static body:
/// infinite mass, immovable.
pub fn make_ground(world: &mut World) -> (h: ColliderHandle)
    requires
        old(world)@.wf(),
    ensures
        final(world)@ == spec_add_collider(
            old(world)@,
            ground_shape(),
            BodyRef::Ground,
            MARGIN,
            0,
            GROUND_POS_Y,
        ),
        h.index == old(world)@.colliders.len(),
        final(world)@.wf(),
{
    let shape = ShapeDesc::Box { half_w: GROUND_HALF_W, half_h: GROUND_HALF_H };
    match world.add_collider(shape, BodyRef::Ground, MARGIN, 0, GROUND_POS_Y) {
        Ok(h) => h,
        Err(_) => unreached(),
    }
}

/// Registers a dynamic body for `shape` at the given pose, with mass
/// properties derived at the reference density.
pub fn make_simple_body(world: &mut World, pos_x: i64, pos_y: i64, angle: i64, shape: ShapeDesc)
    -> (h: BodyHandle)
    requires
        old(world)@.wf(),
        shape.wf(),
        -MAX_COORD <= pos_x <= MAX_COORD,
        -MAX_COORD <= pos_y <= MAX_COORD,
    ensures
        final(world)@ == spec_add_body(old(world)@, pos_x, pos_y, angle, shape, REFERENCE_DENSITY),
        h.index == old(world)@.bodies.len(),
        final(world)@.wf(),
{
    world.add_rigid_body(pos_x, pos_y, angle, shape, REFERENCE_DENSITY)
}

/// Attaches `shape` to the dynamic body `body` with the default clearance
/// margin and an identity local transform. Rejects a stale body handle.
pub fn make_simple_collider(world: &mut World, shape: ShapeDesc, body: BodyHandle) -> (r: Result<
    ColliderHandle,
    Error,
>)
    requires
        old(world)@.wf(),
        shape.wf(),
    ensures
        match r {
            Ok(h) => {
                &&& valid_body_handle(old(world)@, body)
                &&& final(world)@ == spec_add_collider(
                    old(world)@,
                    shape,
                    BodyRef::Dynamic { index: body.index },
                    MARGIN,
                    0,
                    0,
                )
                &&& h.index == old(world)@.colliders.len()
            },
            Err(e) => {
                &&& !valid_body_handle(old(world)@, body)
                &&& e == Error::StaleHandle
                &&& final(world)@ == old(world)@
            },
        },
        final(world)@.wf(),
{
    world.add_collider(shape, BodyRef::Dynamic { index: body.index }, MARGIN, 0, 0)
}

/// One grid cell: a box shape, its dynamic body, and the collider pairing
/// them. The triple is created together and stays mutually consistent for the
/// scene's lifetime.
#[derive(Clone, Copy, Debug, PartialEq, Eq, Structural)]
pub struct SimpleBox {
    pub shape: ShapeDesc,
    pub body: BodyHandle,
    pub collider: ColliderHandle,
}

/// The world after one `SimpleBox` is created: its body appended, then the
/// collider pairing that body with the box shape.
pub open spec fn spec_simple_box(
    w: WorldModel,
    pos_x: i64,
    pos_y: i64,
    half_w: i64,
    half_h: i64,
) -> WorldModel {
    spec_add_collider(
        spec_add_body(w, pos_x, pos_y, 0, spec_box_shape(half_w, half_h), REFERENCE_DENSITY),
        spec_box_shape(half_w, half_h),
        BodyRef::Dynamic { index: w.bodies.len() as usize },
        MARGIN,
        0,
        0,
    )
}

impl SimpleBox {
    /// Creates the box shape, registers its dynamic body at the given
    /// position (angle zero), and attaches the collider. Degenerate extents
    /// are rejected before any state is committed.
    pub fn new(world: &mut World, pos_x: i64, pos_y: i64, half_w: i64, half_h: i64) -> (r: Result<
        SimpleBox,
        Error,
    >)
        requires
            old(world)@.wf(),
            half_w <= MAX_HALF_EXTENT,
            half_h <= MAX_HALF_EXTENT,
            -MAX_COORD <= pos_x <= MAX_COORD,
            -MAX_COORD <= pos_y <= MAX_COORD,
        ensures
            match r {
                Ok(sb) => {
                    &&& half_w > 0 && half_h > 0
                    &&& sb.shape == spec_box_shape(half_w, half_h)
                    &&& sb.body.index == old(world)@.bodies.len()
                    &&& sb.collider.index == old(world)@.colliders.len()
                    &&& final(world)@ == spec_simple_box(old(world)@, pos_x, pos_y, half_w, half_h)
                },
                Err(e) => {
                    &&& (half_w <= 0 || half_h <= 0)
                    &&& e == Error::NonPositiveExtent
                    &&& final(world)@ == old(world)@
                },
            },
            final(world)@.wf(),
    {
        let shape = match make_box_shape(half_w, half_h) {
            Ok(s) => s,
            Err(e) => {
                return Err(e);
            },
        };
        let body = make_simple_body(world, pos_x, pos_y, 0, shape);
        let collider = match make_simple_collider(world, shape, body) {
            Ok(c) => c,
            Err(_) => unreached(),
        };
        Ok(SimpleBox { shape, body, collider })
    }
}

/// Horizontal position (milli-units) of grid column `i`: columns are spaced
/// by a box width and centered about the origin.
pub open spec fn grid_pos_x(i: int, half_w: i64, cols: int) -> int {
    2 * half_w * i - half_w * cols
}

/// Vertical position (milli-units) of grid row `j`: rows are spaced by three
/// half-heights, the first sitting just below the origin.
pub open spec fn grid_pos_y(j: int, half_h: i64) -> int {
    3 * half_h * j + (3 * half_h) / 2
}

/// The body of grid cell `k` (cells run column-major: `k = i * rows + j`).
pub open spec fn grid_body_rec(k: int, rows: int, cols: int, half_w: i64, half_h: i64) -> BodyRec {
    BodyRec {
        pos_x: grid_pos_x(k / rows, half_w, cols) as i64,
        pos_y: grid_pos_y(k % rows, half_h) as i64,
        angle: 0,
        shape: spec_box_shape(half_w, half_h),
        density: REFERENCE_DENSITY,
    }
}

/// The collider of a grid cell whose body sits at arena index `b`.
pub open spec fn grid_collider_rec(b: int, half_w: i64, half_h: i64) -> ColliderRec {
    ColliderRec {
        shape: spec_box_shape(half_w, half_h),
        parent: BodyRef::Dynamic { index: b as usize },
        margin: MARGIN,
        local_x: 0,
        local_y: 0,
    }
}

/// What building the box-grid scene adds to a world: gravity set downward,
/// one ground collider, then exactly `rows * cols` box bodies with their
/// colliders, at the exact grid positions; everything already there is kept.
pub open spec fn grid_scene_added(
    pre: WorldModel,
    post: WorldModel,
    rows: int,
    cols: int,
    half_w: i64,
    half_h: i64,
) -> bool {
    let nb = pre.bodies.len() as int;
    let nc = pre.colliders.len() as int;
    &&& post.gravity_x == 0
    &&& post.gravity_y == GRAVITY_Y
    &&& post.ticks == pre.ticks
    &&& post.bodies.len() == nb + rows * cols
    &&& post.colliders.len() == nc + 1 + rows * cols
    &&& forall|k: int| 0 <= k < nb ==> #[trigger] post.bodies[k] == pre.bodies[k]
    &&& forall|k: int| 0 <= k < nc ==> #[trigger] post.colliders[k] == pre.colliders[k]
    &&& post.colliders[nc] == ground_collider_rec()
    &&& forall|k: int|
        0 <= k < rows * cols ==> #[trigger] post.bodies[nb + k] == grid_body_rec(
            k,
            rows,
            cols,
            half_w,
            half_h,
        )
    &&& forall|k: int|
        0 <= k < rows * cols ==> #[trigger] post.colliders[nc + 1 + k] == grid_collider_rec(
            nb + k,
            half_w,
            half_h,
        )
}

/// How many colliders of `s` are attached to the ground.
pub open spec fn count_ground(s: Seq<ColliderRec>) -> nat
    decreases s.len(),
{
    if s.len() == 0 {
        0
    } else {
        count_ground(s.drop_last()) + if s.last().parent is Ground {
            1nat
        } else {
            0nat
        }
    }
}

proof fn lemma_count_ground_take_succ(s: Seq<ColliderRec>, n: int)
    requires
        0 <= n < s.len(),
    ensures
        count_ground(s.take(n + 1)) == count_ground(s.take(n)) + if s[n].parent is Ground {
            1nat
        } else {
            0nat
        },
{
    assert(s.take(n + 1).drop_last() =~= s.take(n));
    assert(s.take(n + 1).last() == s[n]);
}

proof fn lemma_count_ground_no_ground_range(s: Seq<ColliderRec>, a: int, b: int)
    requires
        0 <= a <= b <= s.len(),
        forall|k: int| a <= k < b ==> !((#[trigger] s[k]).parent is Ground),
    ensures
        count_ground(s.take(b)) == count_ground(s.take(a)),
    decreases b - a,
{
    if a < b {
        lemma_count_ground_no_ground_range(s, a, b - 1);
        lemma_count_ground_take_succ(s, b - 1);
    }
}

/// Building the box-grid scene creates exactly `rows * cols` box bodies, each
/// with its own collider, plus exactly one more ground collider.
pub proof fn lemma_grid_scene_counts(
    pre: WorldModel,
    post: WorldModel,
    rows: int,
    cols: int,
    half_w: i64,
    half_h: i64,
)
    requires
        grid_scene_added(pre, post, rows, cols, half_w, half_h),
        0 <= rows,
        0 <= cols,
    ensures
        post.bodies.len() == pre.bodies.len() + rows * cols,
        post.colliders.len() == pre.colliders.len() + 1 + rows * cols,
        count_ground(post.colliders) == count_ground(pre.colliders) + 1,
{
    let nc = pre.colliders.len() as int;
    let n = rows * cols;
    assert(rows * cols >= 0) by (nonlinear_arith)
        requires
            0 <= rows,
            0 <= cols;
    assert(post.colliders.take(nc) =~= pre.colliders);
    lemma_count_ground_take_succ(post.colliders, nc);
    assert forall|k: int| nc + 1 <= k < nc + 1 + n implies !((#[trigger] post.colliders[k]).parent
        is Ground) by {
        let k2 = k - nc - 1;
        assert(post.colliders[nc + 1 + k2] == grid_collider_rec(
            pre.bodies.len() + k2,
            half_w,
            half_h,
        ));
    }
    lemma_count_ground_no_ground_range(post.colliders, nc + 1, nc + 1 + n);
    assert(post.colliders.take(nc + 1 + n) =~= post.colliders);
}

/// Identical inputs yield identical initial scenes: the grid description
/// determines the built world completely, so two builds over the same
/// starting world agree on every body and collider.
pub proof fn lemma_grid_scene_deterministic(
    pre: WorldModel,
    post1: WorldModel,
    post2: WorldModel,
    rows: int,
    cols: int,
    half_w: i64,
    half_h: i64,
)
    requires
        grid_scene_added(pre, post1, rows, cols, half_w, half_h),
        grid_scene_added(pre, post2, rows, cols, half_w, half_h),
        0 <= rows,
        0 <= cols,
    ensures
        post1 == post2,
{
    let nb = pre.bodies.len() as int;
    let nc = pre.colliders.len() as int;
    assert(rows * cols >= 0) by (nonlinear_arith)
        requires
            0 <= rows,
            0 <= cols;
    assert forall|k: int| 0 <= k < post1.bodies.len() implies #[trigger] post1.bodies[k]
        == post2.bodies[k] by {
        if k < nb {
            assert(post1.bodies[k] == pre.bodies[k]);
            assert(post2.bodies[k] == pre.bodies[k]);
        } else {
            let k2 = k - nb;
            assert(post1.bodies[nb + k2] == grid_body_rec(k2, rows, cols, half_w, half_h));
            assert(post2.bodies[nb + k2] == grid_body_rec(k2, rows, cols, half_w, half_h));
        }
    }
    assert(post1.bodies =~= post2.bodies);
    assert forall|k: int| 0 <= k < post1.colliders.len() implies #[trigger] post1.colliders[k]
        == post2.colliders[k] by {
        if k < nc {
            assert(post1.colliders[k] == pre.colliders[k]);
            assert(post2.colliders[k] == pre.colliders[k]);
        } else if k > nc {
            let k2 = k - nc - 1;
            assert(post1.colliders[nc + 1 + k2] == grid_collider_rec(nb + k2, half_w, half_h));
            assert(post2.colliders[nc + 1 + k2] == grid_collider_rec(nb + k2, half_w, half_h));
        }
    }
    assert(post1.colliders =~= post2.colliders);
    assert(post1 =~= post2);
}

/// Builds the scene: sets gravity to (0, down), installs the ground slab,
/// then one `SimpleBox` per grid cell, spaced by (two half-widths, three
/// half-heights) and centered horizontally. Identical inputs yield identical
/// initial poses. Degenerate extents are rejected with nothing committed.
pub fn build_box_grid_scene(
    world: &mut World,
    rows: usize,
    cols: usize,
    half_w: i64,
    half_h: i64,
) -> (r: Result<(), Error>)
    requires
        old(world)@.wf(),
        rows <= GRID_MAX,
        cols <= GRID_MAX,
        half_w <= MAX_HALF_EXTENT,
        half_h <= MAX_HALF_EXTENT,
    ensures
        match r {
            Ok(()) => {
                &&& half_w > 0 && half_h > 0
                &&& grid_scene_added(
                    old(world)@,
                    final(world)@,
                    rows as int,
                    cols as int,
                    half_w,
                    half_h,
                )
            },
            Err(e) => {
                &&& (half_w <= 0 || half_h <= 0)
                &&& e == Error::NonPositiveExtent
                &&& final(world)@ == old(world)@
            },
        },
        final(world)@.wf(),
{
    if half_w <= 0 || half_h <= 0 {
        return Err(Error::NonPositiveExtent);
    }
    let ghost pre = old(world)@;
    let ghost nb = pre.bodies.len() as int;
    let ghost nc = pre.colliders.len() as int;

    world.set_gravity(0, GRAVITY_Y);
    let _ground = make_ground(world);

    let shiftx = 2 * half_w;
    let shifty = 3 * half_h;
    proof {
        assert(0 <= (shiftx as int) * (cols as int) <= (2 * 0x10_0000) * 4096
            && (shiftx as int) * (cols as int) / 2 == (half_w as int) * (cols as int))
            by (nonlinear_arith)
            requires
                0 <= cols <= 4096,
                0 < half_w <= 0x10_0000,
                shiftx == 2 * half_w;
    }
    let centerx = shiftx * (cols as i64) / 2;
    let centery = shifty / 2;

    let mut i: usize = 0;
    while i < cols
        invariant
            world@.wf(),
            i <= cols,
            0 <= nb,
            0 <= nc,
            rows <= GRID_MAX,
            cols <= GRID_MAX,
            0 < half_w <= MAX_HALF_EXTENT,
            0 < half_h <= MAX_HALF_EXTENT,
            shiftx == 2 * half_w,
            shifty == 3 * half_h,
            centerx == half_w * (cols as i64),
            centery == (3 * half_h) / 2,
            world@.gravity_x == 0,
            world@.gravity_y == GRAVITY_Y,
            world@.ticks == pre.ticks,
            world@.bodies.len() == nb + i * (rows as int),
            world@.colliders.len() == nc + 1 + i * (rows as int),
            forall|k: int| 0 <= k < nb ==> #[trigger] world@.bodies[k] == pre.bodies[k],
            forall|k: int| 0 <= k < nc ==> #[trigger] world@.colliders[k] == pre.colliders[k],
            world@.colliders[nc] == ground_collider_rec(),
            forall|k: int|
                0 <= k < i * (rows as int) ==> #[trigger] world@.bodies[nb + k] == grid_body_rec(
                    k,
                    rows as int,
                    cols as int,
                    half_w,
                    half_h,
                ),
            forall|k: int|
                0 <= k < i * (rows as int) ==> #[trigger] world@.colliders[nc + 1 + k]
                    == grid_collider_rec(nb + k, half_w, half_h),
        decreases cols - i,
    {
        let mut j: usize = 0;
        proof {
            assert((i + 1) * (rows as int) == i * (rows as int) + rows) by (nonlinear_arith);
        }
        while j < rows
            invariant
                world@.wf(),
                i < cols,
                j <= rows,
                0 <= nb,
                0 <= nc,
                rows <= GRID_MAX,
                cols <= GRID_MAX,
                0 < half_w <= MAX_HALF_EXTENT,
                0 < half_h <= MAX_HALF_EXTENT,
                shiftx == 2 * half_w,
                shifty == 3 * half_h,
                centerx == half_w * (cols as i64),
                centery == (3 * half_h) / 2,
                world@.gravity_x == 0,
                world@.gravity_y == GRAVITY_Y,
                world@.ticks == pre.ticks,
                world@.bodies.len() == nb + i * (rows as int) + j,
                world@.colliders.len() == nc + 1 + i * (rows as int) + j,
                forall|k: int| 0 <= k < nb ==> #[trigger] world@.bodies[k] == pre.bodies[k],
                forall|k: int| 0 <= k < nc ==> #[trigger] world@.colliders[k] == pre.colliders[k],
                world@.colliders[nc] == ground_collider_rec(),
                forall|k: int|
                    0 <= k < i * (rows as int) + j ==> #[trigger] world@.bodies[nb + k]
                        == grid_body_rec(k, rows as int, cols as int, half_w, half_h),
                forall|k: int|
                    0 <= k < i * (rows as int) + j ==> #[trigger] world@.colliders[nc + 1 + k]
                        == grid_collider_rec(nb + k, half_w, half_h),
            decreases rows - j,
        {
            proof {
                assert((i as int) * (shiftx as int) <= 4096 * (2 * 0x10_0000)
                    && (i as int) * (shiftx as int) >= 0) by (nonlinear_arith)
                    requires
                        0 <= i <= 4096,
                        0 <= shiftx <= 2 * 0x10_0000;
                assert((half_w as int) * (cols as int) <= 0x10_0000 * 4096
                    && (half_w as int) * (cols as int) >= 0) by (nonlinear_arith)
                    requires
                        0 <= cols <= 4096,
                        0 < half_w <= 0x10_0000;
                assert((j as int) * (shifty as int) <= 4096 * (3 * 0x10_0000)
                    && (j as int) * (shifty as int) >= 0) by (nonlinear_arith)
                    requires
                        0 <= j <= 4096,
                        0 <= shifty <= 3 * 0x10_0000;
            }
            let x = (i as i64) * shiftx - centerx;
            let y = (j as i64) * shifty + centery;
            let ghost k0: int = i * (rows as int) + j;
            proof {
                lemma_fundamental_div_mod_converse(k0, rows as int, i as int, j as int);
                assert(x == grid_pos_x(i as int, half_w, cols as int));
                assert(y == grid_pos_y(j as int, half_h));
            }
            let ghost wpre = world@;
            match SimpleBox::new(world, x, y, half_w, half_h) {
                Ok(_) => {},
                Err(_) => unreached(),
            }
            proof {
                assert(world@.bodies[nb + k0] == grid_body_rec(
                    k0,
                    rows as int,
                    cols as int,
                    half_w,
                    half_h,
                ));
                assert(world@.colliders[nc + 1 + k0] == grid_collider_rec(nb + k0, half_w, half_h));
                assert forall|k: int| 0 <= k < nb implies #[trigger] world@.bodies[k]
                    == pre.bodies[k] by {
                    assert(world@.bodies[k] == wpre.bodies[k]);
                }
                assert forall|k: int| 0 <= k < nc implies #[trigger] world@.colliders[k]
                    == pre.colliders[k] by {
                    assert(world@.colliders[k] == wpre.colliders[k]);
                }
                assert(world@.colliders[nc] == wpre.colliders[nc]);
                assert forall|k: int| 0 <= k < k0 + 1 implies #[trigger] world@.bodies[nb + k]
                    == grid_body_rec(k, rows as int, cols as int, half_w, half_h) by {
                    if k < k0 {
                        assert(world@.bodies[nb + k] == wpre.bodies[nb + k]);
                    }
                }
                assert forall|k: int| 0 <= k < k0 + 1 implies #[trigger] world@.colliders[nc + 1
                    + k] == grid_collider_rec(nb + k, half_w, half_h) by {
                    if k < k0 {
                        assert(world@.colliders[nc + 1 + k] == wpre.colliders[nc + 1 + k]);
                    }
                }
            }
            j = j + 1;
        }
        i = i + 1;
    }
    proof {
        assert((cols as int) * (rows as int) == (rows as int) * (cols as int)) by (nonlinear_arith);
    }
    Ok(())
}

} // verus!
