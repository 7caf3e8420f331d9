//! The simulation controller: owns the world and the accumulated camera
//! offset, builds the default scene, advances time, and turns the world into
//! render commands.

use vstd::prelude::*;
use vstd::pervasive::unreached;
use crate::errors::Error;
use crate::render::{render_cmds, render_world, RenderCmd};
use crate::scene::{build_box_grid_scene, grid_scene_added};
use crate::geom::MAX_COORD;
use crate::world::{
    spec_advance_tick, spec_set_body_pose, valid_body_handle, BodyHandle, World, WorldModel,
};

verus! {

/// Grid rows the default scene is built with.
pub const GRID_ROWS: usize = 25;

/// Grid columns the default scene is built with.
pub const GRID_COLS: usize = 25;

/// Half-extent (milli-units) of each box in the default scene.
pub const BOX_HALF_EXTENT: i64 = 100;

/// Optional surface-size hints (pixels) handed to the controller at
/// construction. Advisory only: the controller performs no resize.
#[derive(Clone, Copy, Debug)]
pub struct GameConfig {
    pub width: Option<u64>,
    pub height: Option<u64>,
}

/// Mathematical view of a `Game`.
pub struct GameModel {
    pub x_offset: int,
    pub scene_built: bool,
    pub world: WorldModel,
}

impl GameModel {
    /// The controller is well formed when its world is.
    pub open spec fn wf(self) -> bool {
        self.world.wf()
    }
}

/// The controller after panning the camera by `dx`.
pub open spec fn spec_pan(g: GameModel, dx: int) -> GameModel {
    GameModel { x_offset: g.x_offset + dx, ..g }
}

/// The controller after one fixed simulation tick.
pub open spec fn spec_step(g: GameModel) -> GameModel {
    GameModel { world: spec_advance_tick(g.world), ..g }
}

/// The simulation controller: the one owner and mutator of the world, plus
/// the accumulated horizontal camera offset (milli-pixels).
pub struct Game {
    x_offset: i64,
    scene_built: bool,
    world: World,
}

impl View for Game {
    type V = GameModel;

    closed spec fn view(&self) -> GameModel {
        GameModel {
            x_offset: self.x_offset as int,
            scene_built: self.scene_built,
            world: self.world@,
        }
    }
}

impl Game {
    /// A fresh controller: camera at zero, an empty world, no scene yet. The
    /// config's size hints are advisory and take no effect here.
    pub fn new(_config: &GameConfig) -> (g: Game)
        ensures
            g@.x_offset == 0,
            !g@.scene_built,
            g@.world == WorldModel::empty(),
            g@.wf(),
    {
        Game { x_offset: 0, scene_built: false, world: World::new() }
    }

    /// Builds the default box-grid scene into the owned world. A second build
    /// is rejected and leaves everything unchanged.
    pub fn setup_boxes_scene(&mut self) -> (r: Result<(), Error>)
        requires
            old(self)@.wf(),
        ensures
            match r {
                Ok(()) => {
                    &&& !old(self)@.scene_built
                    &&& final(self)@.scene_built
                    &&& final(self)@.x_offset == old(self)@.x_offset
                    &&& grid_scene_added(
                        old(self)@.world,
                        final(self)@.world,
                        GRID_ROWS as int,
                        GRID_COLS as int,
                        BOX_HALF_EXTENT,
                        BOX_HALF_EXTENT,
                    )
                },
                Err(e) => {
                    &&& old(self)@.scene_built
                    &&& e == Error::SceneAlreadyBuilt
                    &&& final(self)@ == old(self)@
                },
            },
            final(self)@.wf(),
    {
        if self.scene_built {
            return Err(Error::SceneAlreadyBuilt);
        }
        match build_box_grid_scene(&mut self.world, GRID_ROWS, GRID_COLS, BOX_HALF_EXTENT, BOX_HALF_EXTENT) {
            Ok(()) => {},
            Err(_) => unreached(),
        }
        self.scene_built = true;
        Ok(())
    }

    /// Pans the camera horizontally: the offset accumulates additively,
    /// unbounded in either direction (within the fixed-point range).
    pub fn pan(&mut self, dx: i64)
        requires
            i64::MIN <= old(self)@.x_offset + dx <= i64::MAX,
        ensures
            final(self)@ == spec_pan(old(self)@, dx as int),
    {
        self.x_offset = self.x_offset + dx;
    }

    /// Advances the world by one fixed tick. Driven once per frame by an
    /// external scheduler the controller does not own.
    pub fn step(&mut self)
        requires
            old(self)@.wf(),
            old(self)@.world.ticks < u64::MAX,
        ensures
            final(self)@ == spec_step(old(self)@),
            final(self)@.wf(),
    {
        self.world.advance_tick();
    }

    /// Renders the scene: one clear, the accumulated pan as a single
    /// translation, every collider's contribution, and a transform restore.
    /// Reads the world, never changes it.
    pub fn render_scene(&self) -> (cmds: Vec<RenderCmd>)
        requires
            self@.wf(),
        ensures
            cmds@ == render_cmds(self@.world, self@.x_offset),
    {
        let mut cmds: Vec<RenderCmd> = Vec::new();
        cmds.push(RenderCmd::Clear);
        cmds.push(RenderCmd::Translate { dx: self.x_offset });
        let mut draws = render_world(&self.world);
        cmds.append(&mut draws);
        cmds.push(RenderCmd::Restore);
        proof {
            assert(cmds@ =~= render_cmds(self@.world, self@.x_offset));
        }
        cmds
    }

    /// Writes the pose the engine computed for the body `h` names back into
    /// the owned world. Rejects a stale handle.
    pub fn set_body_pose(&mut self, h: BodyHandle, pos_x: i64, pos_y: i64, angle: i64) -> (r:
        Result<(), Error>)
        requires
            old(self)@.wf(),
            -MAX_COORD <= pos_x <= MAX_COORD,
            -MAX_COORD <= pos_y <= MAX_COORD,
        ensures
            match r {
                Ok(()) => {
                    &&& valid_body_handle(old(self)@.world, h)
                    &&& final(self)@.world == spec_set_body_pose(
                        old(self)@.world,
                        h.index as int,
                        pos_x,
                        pos_y,
                        angle,
                    )
                    &&& final(self)@.x_offset == old(self)@.x_offset
                    &&& final(self)@.scene_built == old(self)@.scene_built
                },
                Err(e) => {
                    &&& !valid_body_handle(old(self)@.world, h)
                    &&& e == Error::StaleHandle
                    &&& final(self)@ == old(self)@
                },
            },
            final(self)@.wf(),
    {
        self.world.set_body_pose(h, pos_x, pos_y, angle)
    }

    /// The accumulated camera offset (milli-pixels).
    pub fn x_offset(&self) -> (r: i64)
        ensures
            r == self@.x_offset,
    {
        self.x_offset
    }

    /// Whether the scene has been built already.
    pub fn scene_built(&self) -> (r: bool)
        ensures
            r == self@.scene_built,
    {
        self.scene_built
    }

    /// Read access to the owned world.
    pub fn world(&self) -> (w: &World)
        ensures
            w@ == self@.world,
    {
        &self.world
    }
}

/// Panning by `a` and then by `b` lands exactly where one pan by `a + b`
/// does, in either order: offset accumulation is associative and commutative.
pub proof fn lemma_pan_accumulates(g: GameModel, a: int, b: int)
    ensures
        spec_pan(spec_pan(g, a), b) == spec_pan(g, a + b),
        spec_pan(spec_pan(g, a), b) == spec_pan(spec_pan(g, b), a),
{
}

/// Repeated stepping advances simulation time strictly monotonically: each
/// tick increases the clock by exactly one and changes nothing else the
/// model tracks.
pub proof fn lemma_step_time_monotonic(g: GameModel)
    ensures
        spec_step(g).world.ticks == g.world.ticks + 1,
        spec_step(g).world.ticks > g.world.ticks,
        spec_step(g).x_offset == g.x_offset,
        spec_step(g).world.bodies == g.world.bodies,
        spec_step(g).world.colliders == g.world.colliders,
{
}

} // verus!
