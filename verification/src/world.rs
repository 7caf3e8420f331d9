//! The simulation world: an arena of rigid bodies and colliders plus gravity
//! and a tick counter. Handles are arena indices; every operation against a
//! handle that does not name a live entity is rejected as stale.

use vstd::prelude::*;
use crate::errors::Error;
use crate::geom::{ShapeDesc, MAX_COORD, MAX_HALF_EXTENT};

verus! {

/// Opaque reference to a dynamic body in a `World`.
#[derive(Clone, Copy, Debug, PartialEq, Eq, Structural)]
pub struct BodyHandle {
    pub index: usize,
}

/// Opaque reference to a collider in a `World`.
#[derive(Clone, Copy, Debug, PartialEq, Eq, Structural)]
pub struct ColliderHandle {
    pub index: usize,
}

/// What a collider is attached to: the distinguished immovable ground, or a
/// dynamic body of the arena.
#[derive(Clone, Copy, Debug, PartialEq, Eq, Structural)]
pub enum BodyRef {
    /// The distinguished static body: infinite mass, immovable.
    Ground,
    /// The dynamic body at this arena index.
    Dynamic { index: usize },
}

/// A dynamic body: its pose (milli-units, angle in micro-radians), the shape
/// its mass properties were derived from, and the reference density
/// (milli-mass per square unit) used for that derivation.
#[derive(Clone, Copy, Debug, PartialEq, Eq, Structural)]
pub struct BodyRec {
    pub pos_x: i64,
    pub pos_y: i64,
    pub angle: i64,
    pub shape: ShapeDesc,
    pub density: i64,
}

/// A collider: collision geometry with a clearance margin (milli-units),
/// attached to its parent at a local offset (identity for dynamic bodies).
#[derive(Clone, Copy, Debug, PartialEq, Eq, Structural)]
pub struct ColliderRec {
    pub shape: ShapeDesc,
    pub parent: BodyRef,
    pub margin: i64,
    pub local_x: i64,
    pub local_y: i64,
}

/// Mathematical view of a `World`.
#[verifier::ext_equal]
pub struct WorldModel {
    pub gravity_x: i64,
    pub gravity_y: i64,
    pub ticks: nat,
    pub bodies: Seq<BodyRec>,
    pub colliders: Seq<ColliderRec>,
}

/// Aggregate simulation state. Created once, populated by the scene builder,
/// advanced tick by tick, never torn down entity by entity.
pub struct World {
    gravity_x: i64,
    gravity_y: i64,
    ticks: u64,
    bodies: Vec<BodyRec>,
    colliders: Vec<ColliderRec>,
}

impl View for World {
    type V = WorldModel;

    closed spec fn view(&self) -> WorldModel {
        WorldModel {
            gravity_x: self.gravity_x,
            gravity_y: self.gravity_y,
            ticks: self.ticks as nat,
            bodies: self.bodies@,
            colliders: self.colliders@,
        }
    }
}

/// A body's pose stays inside the fixed-point range and its shape is well
/// formed.
pub open spec fn body_wf(b: BodyRec) -> bool {
    &&& -MAX_COORD <= b.pos_x <= MAX_COORD
    &&& -MAX_COORD <= b.pos_y <= MAX_COORD
    &&& b.shape.wf()
}

/// A collider's geometry and offsets stay inside the fixed-point range and
/// its parent names a live body (or the ground).
pub open spec fn collider_wf(c: ColliderRec, n_bodies: int) -> bool {
    &&& c.shape.wf()
    &&& 0 <= c.margin <= MAX_HALF_EXTENT
    &&& -MAX_COORD <= c.local_x <= MAX_COORD
    &&& -MAX_COORD <= c.local_y <= MAX_COORD
    &&& match c.parent {
        BodyRef::Ground => true,
        BodyRef::Dynamic { index } => index < n_bodies,
    }
}

impl WorldModel {
    /// Well-formedness: every body and collider is well formed and every
    /// collider's parent is live. Constructors establish it; every method
    /// preserves it.
    pub open spec fn wf(self) -> bool {
        &&& forall|k: int| 0 <= k < self.bodies.len() ==> body_wf(#[trigger] self.bodies[k])
        &&& forall|k: int|
            0 <= k < self.colliders.len() ==> collider_wf(
                #[trigger] self.colliders[k],
                self.bodies.len() as int,
            )
    }

    /// The empty world: no gravity, no entities, time at zero.
    pub open spec fn empty() -> WorldModel {
        WorldModel {
            gravity_x: 0,
            gravity_y: 0,
            ticks: 0,
            bodies: Seq::empty(),
            colliders: Seq::empty(),
        }
    }
}

/// `h` names a live dynamic body of `w`.
pub open spec fn valid_body_handle(w: WorldModel, h: BodyHandle) -> bool {
    h.index < w.bodies.len()
}

/// `p` names a live attachment target of `w`.
pub open spec fn valid_parent(w: WorldModel, p: BodyRef) -> bool {
    match p {
        BodyRef::Ground => true,
        BodyRef::Dynamic { index } => index < w.bodies.len(),
    }
}

/// The world after registering one dynamic body.
pub open spec fn spec_add_body(
    w: WorldModel,
    pos_x: i64,
    pos_y: i64,
    angle: i64,
    shape: ShapeDesc,
    density: i64,
) -> WorldModel {
    WorldModel { bodies: w.bodies.push(BodyRec { pos_x, pos_y, angle, shape, density }), ..w }
}

/// The world after attaching one collider.
pub open spec fn spec_add_collider(
    w: WorldModel,
    shape: ShapeDesc,
    parent: BodyRef,
    margin: i64,
    local_x: i64,
    local_y: i64,
) -> WorldModel {
    WorldModel {
        colliders: w.colliders.push(ColliderRec { shape, parent, margin, local_x, local_y }),
        ..w
    }
}

/// The world after setting gravity.
pub open spec fn spec_set_gravity(w: WorldModel, gx: i64, gy: i64) -> WorldModel {
    WorldModel { gravity_x: gx, gravity_y: gy, ..w }
}

/// The world one fixed tick later: only time has advanced in the model; the
/// engine owns what the tick does to poses.
pub open spec fn spec_advance_tick(w: WorldModel) -> WorldModel {
    WorldModel { ticks: w.ticks + 1, ..w }
}

/// The world after writing the body at index `i` a new pose.
pub open spec fn spec_set_body_pose(
    w: WorldModel,
    i: int,
    pos_x: i64,
    pos_y: i64,
    angle: i64,
) -> WorldModel {
    WorldModel {
        bodies: w.bodies.update(i, BodyRec { pos_x, pos_y, angle, ..w.bodies[i] }),
        ..w
    }
}

/// The half-extents a body reports: those of its box shape, if it has one.
pub open spec fn body_half_extents(w: WorldModel, i: int) -> Option<(i64, i64)> {
    if 0 <= i < w.bodies.len() {
        match w.bodies[i].shape {
            ShapeDesc::Box { half_w, half_h } => Some((half_w, half_h)),
            ShapeDesc::Ball { .. } => None,
        }
    } else {
        None
    }
}

proof fn lemma_wf_same_entities(w1: WorldModel, w2: WorldModel)
    requires
        w1.wf(),
        w2.bodies == w1.bodies,
        w2.colliders == w1.colliders,
    ensures
        w2.wf(),
{
    assert forall|k: int| 0 <= k < w2.bodies.len() implies body_wf(#[trigger] w2.bodies[k]) by {
        assert(body_wf(w1.bodies[k]));
    }
    assert forall|k: int|
        0 <= k < w2.colliders.len() implies collider_wf(
        #[trigger] w2.colliders[k],
        w2.bodies.len() as int,
    ) by {
        assert(collider_wf(w1.colliders[k], w1.bodies.len() as int));
    }
}

proof fn lemma_wf_push_collider(w1: WorldModel, w2: WorldModel, c: ColliderRec)
    requires
        w1.wf(),
        collider_wf(c, w1.bodies.len() as int),
        w2.bodies == w1.bodies,
        w2.colliders == w1.colliders.push(c),
    ensures
        w2.wf(),
{
    assert forall|k: int| 0 <= k < w2.bodies.len() implies body_wf(#[trigger] w2.bodies[k]) by {
        assert(body_wf(w1.bodies[k]));
    }
    assert forall|k: int|
        0 <= k < w2.colliders.len() implies collider_wf(
        #[trigger] w2.colliders[k],
        w2.bodies.len() as int,
    ) by {
        if k < w1.colliders.len() {
            assert(collider_wf(w1.colliders[k], w1.bodies.len() as int));
        } else {
            assert(w2.colliders[k] == c);
        }
    }
}

impl World {
    /// An empty world: no gravity, no bodies, no colliders, time at zero.
    pub fn new() -> (w: World)
        ensures
            w@ == WorldModel::empty(),
            w@.wf(),
    {
        World { gravity_x: 0, gravity_y: 0, ticks: 0, bodies: Vec::new(), colliders: Vec::new() }
    }

    /// Sets the gravity vector (milli-units per square second).
    pub fn set_gravity(&mut self, gx: i64, gy: i64)
        requires
            old(self)@.wf(),
        ensures
            final(self)@ == spec_set_gravity(old(self)@, gx, gy),
            final(self)@.wf(),
    {
        self.gravity_x = gx;
        self.gravity_y = gy;
        proof {
            lemma_wf_same_entities(old(self)@, self@);
        }
    }

    /// Registers a dynamic body with the given pose; its mass properties are
    /// derived from `shape` at the given reference density.
    pub fn add_rigid_body(
        &mut self,
        pos_x: i64,
        pos_y: i64,
        angle: i64,
        shape: ShapeDesc,
        density: i64,
    ) -> (h: BodyHandle)
        requires
            old(self)@.wf(),
            shape.wf(),
            -MAX_COORD <= pos_x <= MAX_COORD,
            -MAX_COORD <= pos_y <= MAX_COORD,
        ensures
            final(self)@ == spec_add_body(old(self)@, pos_x, pos_y, angle, shape, density),
            h.index == old(self)@.bodies.len(),
            valid_body_handle(final(self)@, h),
            final(self)@.wf(),
    {
        let h = BodyHandle { index: self.bodies.len() };
        self.bodies.push(BodyRec { pos_x, pos_y, angle, shape, density });
        h
    }

    /// Attaches collision geometry with a clearance margin to `parent`, at
    /// the given local offset. Rejects a parent handle that names no live
    /// body.
    pub fn add_collider(
        &mut self,
        shape: ShapeDesc,
        parent: BodyRef,
        margin: i64,
        local_x: i64,
        local_y: i64,
    ) -> (r: Result<ColliderHandle, Error>)
        requires
            old(self)@.wf(),
            shape.wf(),
            0 <= margin <= MAX_HALF_EXTENT,
            -MAX_COORD <= local_x <= MAX_COORD,
            -MAX_COORD <= local_y <= MAX_COORD,
        ensures
            match r {
                Ok(h) => {
                    &&& valid_parent(old(self)@, parent)
                    &&& final(self)@ == spec_add_collider(
                        old(self)@,
                        shape,
                        parent,
                        margin,
                        local_x,
                        local_y,
                    )
                    &&& h.index == old(self)@.colliders.len()
                },
                Err(e) => {
                    &&& !valid_parent(old(self)@, parent)
                    &&& e == Error::StaleHandle
                    &&& final(self)@ == old(self)@
                },
            },
            final(self)@.wf(),
    {
        let live = match parent {
            BodyRef::Ground => true,
            BodyRef::Dynamic { index } => index < self.bodies.len(),
        };
        if !live {
            return Err(Error::StaleHandle);
        }
        let h = ColliderHandle { index: self.colliders.len() };
        let c = ColliderRec { shape, parent, margin, local_x, local_y };
        self.colliders.push(c);
        proof {
            lemma_wf_push_collider(old(self)@, self@, c);
        }
        Ok(h)
    }

    /// Writes the pose the engine computed for the body `h` names back into
    /// the model. Rejects a stale handle.
    pub fn set_body_pose(&mut self, h: BodyHandle, pos_x: i64, pos_y: i64, angle: i64) -> (r:
        Result<(), Error>)
        requires
            old(self)@.wf(),
            -MAX_COORD <= pos_x <= MAX_COORD,
            -MAX_COORD <= pos_y <= MAX_COORD,
        ensures
            match r {
                Ok(()) => {
                    &&& valid_body_handle(old(self)@, h)
                    &&& final(self)@ == spec_set_body_pose(
                        old(self)@,
                        h.index as int,
                        pos_x,
                        pos_y,
                        angle,
                    )
                },
                Err(e) => {
                    &&& !valid_body_handle(old(self)@, h)
                    &&& e == Error::StaleHandle
                    &&& final(self)@ == old(self)@
                },
            },
            final(self)@.wf(),
    {
        if h.index >= self.bodies.len() {
            return Err(Error::StaleHandle);
        }
        let b = self.bodies[h.index];
        self.bodies.set(h.index, BodyRec { pos_x, pos_y, angle, ..b });
        Ok(())
    }

    /// Advances the simulation clock by one fixed tick.
    pub fn advance_tick(&mut self)
        requires
            old(self)@.wf(),
            old(self)@.ticks < u64::MAX,
        ensures
            final(self)@ == spec_advance_tick(old(self)@),
            final(self)@.wf(),
    {
        self.ticks = self.ticks + 1;
    }

    /// How many fixed ticks the world has advanced.
    pub fn ticks(&self) -> (n: u64)
        ensures
            n as nat == self@.ticks,
    {
        self.ticks
    }

    /// How many dynamic bodies the world holds.
    pub fn num_bodies(&self) -> (n: usize)
        ensures
            n == self@.bodies.len(),
    {
        self.bodies.len()
    }

    /// How many colliders the world holds.
    pub fn num_colliders(&self) -> (n: usize)
        ensures
            n == self@.colliders.len(),
    {
        self.colliders.len()
    }

    /// The gravity vector (milli-units per square second).
    pub fn gravity(&self) -> (g: (i64, i64))
        ensures
            g.0 == self@.gravity_x,
            g.1 == self@.gravity_y,
    {
        (self.gravity_x, self.gravity_y)
    }

    /// The shape the body `h` names was registered with. Rejects a stale
    /// handle.
    pub fn body_shape(&self, h: BodyHandle) -> (r: Result<ShapeDesc, Error>)
        ensures
            match r {
                Ok(s) => valid_body_handle(self@, h) && s == self@.bodies[h.index as int].shape,
                Err(e) => !valid_body_handle(self@, h) && e == Error::StaleHandle,
            },
    {
        if h.index >= self.bodies.len() {
            return Err(Error::StaleHandle);
        }
        Ok(self.bodies[h.index].shape)
    }

    /// The pose of the body `h` names: position (milli-units) and angle
    /// (micro-radians). Rejects a stale handle.
    pub fn body_pose(&self, h: BodyHandle) -> (r: Result<(i64, i64, i64), Error>)
        ensures
            match r {
                Ok(p) => {
                    &&& valid_body_handle(self@, h)
                    &&& p.0 == self@.bodies[h.index as int].pos_x
                    &&& p.1 == self@.bodies[h.index as int].pos_y
                    &&& p.2 == self@.bodies[h.index as int].angle
                },
                Err(e) => !valid_body_handle(self@, h) && e == Error::StaleHandle,
            },
    {
        if h.index >= self.bodies.len() {
            return Err(Error::StaleHandle);
        }
        let b = &self.bodies[h.index];
        Ok((b.pos_x, b.pos_y, b.angle))
    }

    /// The record of the collider at arena index `i`, for enumeration.
    pub fn collider_idx(&self, i: usize) -> (c: ColliderRec)
        requires
            i < self@.colliders.len(),
        ensures
            c == self@.colliders[i as int],
    {
        self.colliders[i]
    }

    /// The record of the body at arena index `i`, for enumeration.
    pub fn body_idx(&self, i: usize) -> (b: BodyRec)
        requires
            i < self@.bodies.len(),
        ensures
            b == self@.bodies[i as int],
    {
        self.bodies[i]
    }

    /// The record of the collider `h` names. Rejects a stale handle.
    pub fn collider_at(&self, h: ColliderHandle) -> (r: Result<ColliderRec, Error>)
        ensures
            match r {
                Ok(c) => h.index < self@.colliders.len() && c == self@.colliders[h.index as int],
                Err(e) => h.index >= self@.colliders.len() && e == Error::StaleHandle,
            },
    {
        if h.index >= self.colliders.len() {
            return Err(Error::StaleHandle);
        }
        Ok(self.colliders[h.index])
    }
}

/// A dynamic body registered with a box shape reports exactly the
/// half-extents the box was made with.
pub proof fn lemma_box_body_half_extents(
    w: WorldModel,
    pos_x: i64,
    pos_y: i64,
    angle: i64,
    half_w: i64,
    half_h: i64,
    density: i64,
)
    requires
        0 < half_w,
        0 < half_h,
    ensures
        body_half_extents(
            spec_add_body(w, pos_x, pos_y, angle, crate::geom::spec_box_shape(half_w, half_h), density),
            w.bodies.len() as int,
        ) == Some((half_w, half_h)),
{
}

} // verus!
