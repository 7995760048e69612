//! The camera: the affine map between screen space and world space.

use crate::fixed::{lemma_scale_and_back, clamp, clamp_wide, div_wide, mul_wide, saturate, saturate_wide, scaled_div, scaled_mul, LIMIT, SCALE};
use crate::geometry::{Point, Vec2};
use vstd::prelude::*;

verus! {

/// The smallest zoom: 0.1.
pub const ZOOM_MIN: i64 = 100_000;

/// The largest zoom: 10.0.
pub const ZOOM_MAX: i64 = 10_000_000;

/// The model of a [`Camera`]: a zoom factor and the world point that the
/// screen origin shows.
pub struct CameraModel {
    pub zoom: int,
    pub target: Vec2,
}

impl CameraModel {
    /// The zoom lies in `[ZOOM_MIN, ZOOM_MAX]` and the target within the
    /// limit of stored quantities.
    pub open spec fn valid(self) -> bool {
        &&& ZOOM_MIN <= self.zoom <= ZOOM_MAX
        &&& -LIMIT <= self.target.x <= LIMIT
        &&& -LIMIT <= self.target.y <= LIMIT
    }

    /// The world point shown at a screen point: `screen / zoom + target`.
    pub open spec fn world_of(self, screen: Vec2) -> Vec2 {
        Vec2 {
            x: scaled_div(screen.x, self.zoom) + self.target.x,
            y: scaled_div(screen.y, self.zoom) + self.target.y,
        }
    }

    /// The screen point that shows a world point: `(world - target) * zoom`.
    pub open spec fn screen_of(self, world: Vec2) -> Vec2 {
        Vec2 {
            x: scaled_mul(world.x - self.target.x, self.zoom),
            y: scaled_mul(world.y - self.target.y, self.zoom),
        }
    }
}

/// A point whose coordinates are those of `v`, saturated.
pub open spec fn saturated(v: Vec2) -> Vec2 {
    Vec2 { x: saturate(v.x), y: saturate(v.y) }
}

/// `back` is `orig` or falls short of it by at most `slack`.
pub open spec fn short_by(back: int, orig: int, slack: int) -> bool {
    orig - slack <= back <= orig
}

/// From world space to the screen and back: each coordinate returns to
/// itself exactly where its screen position needed no rounding, and
/// otherwise falls short by at most ten units of the last place (one, at a
/// zoom of 1.0 or more).
pub proof fn lemma_world_round_trip(cam: CameraModel, world: Vec2)
    requires
        cam.valid(),
    ensures
        short_by(cam.world_of(cam.screen_of(world)).x, world.x, 10),
        short_by(cam.world_of(cam.screen_of(world)).y, world.y, 10),
        cam.zoom >= SCALE ==> short_by(cam.world_of(cam.screen_of(world)).x, world.x, 1)
            && short_by(cam.world_of(cam.screen_of(world)).y, world.y, 1),
        cam.world_of(cam.screen_of(world)).x == world.x <==> ((world.x - cam.target.x) * cam.zoom)
            % (SCALE as int) == 0,
        cam.world_of(cam.screen_of(world)).y == world.y <==> ((world.y - cam.target.y) * cam.zoom)
            % (SCALE as int) == 0,
{
    lemma_scale_and_back(world.x - cam.target.x, cam.zoom, SCALE as int);
    lemma_scale_and_back(world.y - cam.target.y, cam.zoom, SCALE as int);
}

/// From the screen to world space and back: each coordinate returns to
/// itself exactly where its world position needed no rounding, and
/// otherwise falls short by at most ten units of the last place (one, at a
/// zoom of 1.0 or less).
pub proof fn lemma_screen_round_trip(cam: CameraModel, screen: Vec2)
    requires
        cam.valid(),
    ensures
        short_by(cam.screen_of(cam.world_of(screen)).x, screen.x, 10),
        short_by(cam.screen_of(cam.world_of(screen)).y, screen.y, 10),
        cam.zoom <= SCALE ==> short_by(cam.screen_of(cam.world_of(screen)).x, screen.x, 1)
            && short_by(cam.screen_of(cam.world_of(screen)).y, screen.y, 1),
        cam.screen_of(cam.world_of(screen)).x == screen.x <==> (screen.x * (SCALE as int))
            % cam.zoom == 0,
        cam.screen_of(cam.world_of(screen)).y == screen.y <==> (screen.y * (SCALE as int))
            % cam.zoom == 0,
{
    lemma_scale_and_back(screen.x, SCALE as int, cam.zoom);
    lemma_scale_and_back(screen.y, SCALE as int, cam.zoom);
}

/// A zoom factor and a target, the zoom always within `[0.1, 10.0]`.
#[derive(Clone, Copy, Debug)]
pub struct Camera {
    zoom: i64,
    target: Point,
}

impl View for Camera {
    type V = CameraModel;

    closed spec fn view(&self) -> CameraModel {
        CameraModel { zoom: self.zoom as int, target: self.target@ }
    }
}

impl Camera {
    /// What holds of every value of the type.
    #[verifier::type_invariant]
    pub open spec fn inv(self) -> bool {
        self@.valid()
    }

    /// The camera at rest: zoom 1.0, target at the origin.
    pub fn new() -> (c: Camera)
        ensures
            c@ == (CameraModel { zoom: SCALE as int, target: Vec2 { x: 0, y: 0 } }),
            c@.valid(),
    {
        Camera { zoom: SCALE, target: Point { x: 0, y: 0 } }
    }

    /// The camera with the given zoom and target, each brought into its
    /// range.
    pub fn with(zoom: i64, target: Point) -> (c: Camera)
        ensures
            c@.zoom == clamp(zoom as int, ZOOM_MIN as int, ZOOM_MAX as int),
            c@.target == saturated(target@),
            c@.valid(),
    {
        Camera {
            zoom: clamp_wide(zoom as i128, ZOOM_MIN, ZOOM_MAX),
            target: Point { x: saturate_wide(target.x as i128), y: saturate_wide(target.y as i128) },
        }
    }

    /// The zoom factor.
    pub fn zoom(&self) -> (z: i64)
        ensures
            z == self@.zoom,
            ZOOM_MIN <= z <= ZOOM_MAX,
    {
        proof {
            use_type_invariant(self);
        }
        self.zoom
    }

    /// The target.
    pub fn target(&self) -> (t: Point)
        ensures
            t@ == self@.target,
            -LIMIT <= t.x <= LIMIT,
            -LIMIT <= t.y <= LIMIT,
    {
        proof {
            use_type_invariant(self);
        }
        self.target
    }

    /// The world point shown at `screen`, saturated.
    pub fn screen_to_world(&self, screen: Point) -> (world: Point)
        ensures
            world@ == saturated(self@.world_of(screen@)),
    {
        proof {
            use_type_invariant(self);
        }
        let x: i128 = div_wide(screen.x as i128, self.zoom) + self.target.x as i128;
        let y: i128 = div_wide(screen.y as i128, self.zoom) + self.target.y as i128;
        Point { x: saturate_wide(x), y: saturate_wide(y) }
    }

    /// The screen point that shows `world`, saturated.
    pub fn world_to_screen(&self, world: Point) -> (screen: Point)
        ensures
            screen@ == saturated(self@.screen_of(world@)),
    {
        proof {
            use_type_invariant(self);
        }
        let dx: i128 = world.x as i128 - self.target.x as i128;
        let dy: i128 = world.y as i128 - self.target.y as i128;
        let x: i128 = mul_wide(dx, self.zoom);
        let y: i128 = mul_wide(dy, self.zoom);
        Point { x: saturate_wide(x), y: saturate_wide(y) }
    }
}

} // verus!
