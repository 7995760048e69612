//! The viewport controller: zoom momentum anchored at the pointer, and
//! panning with inertia.

use crate::camera::{saturated, Camera, CameraModel, ZOOM_MAX, ZOOM_MIN};
use crate::fixed::{
    clamp, clamp_wide, decay, decayed, div_wide, lemma_decay_shrinks, magnitude, mul_wide,
    saturate, saturate_wide, scaled_div, scaled_mul, LIMIT, SCALE,
};
use crate::geometry::{Point, Vec2};
use crate::input::{FrameInput, ScrollTarget};
use vstd::prelude::*;

verus! {

/// The zoom momentum above which the zoom changes: 0.5.
pub const ZOOM_THRESHOLD: i64 = 500_000;

/// The rate at which the zoom momentum decays, per second.
pub const ZOOM_DECAY: u8 = 4;

/// The rate at which the pan velocity decays, per second.
pub const PAN_DECAY: u8 = 6;

/// The speed at or below which a released pan counts as settled: 15.0.
pub const SETTLE_SPEED: i64 = 15_000_000;

/// The model of a [`Viewport`].
pub struct ViewportModel {
    /// The camera.
    pub camera: CameraModel,
    /// The scroll that has not yet turned into zoom.
    pub delta_scale: int,
    /// The screen point that the present zoom gesture holds in place.
    pub scale_pivot: Vec2,
    /// The pan velocity, in world units per second.
    pub velocity: Vec2,
}

impl ViewportModel {
    /// The camera is valid and every other quantity within the limit.
    pub open spec fn valid(self) -> bool {
        &&& self.camera.valid()
        &&& -LIMIT <= self.delta_scale <= LIMIT
        &&& self.scale_pivot.within(LIMIT as int)
        &&& self.velocity.within(LIMIT as int)
    }

    /// A scroll taken as a zoom gesture at `pointer`: it adds to the
    /// momentum and moves the pivot to the pointer.
    pub open spec fn absorb_scroll(self, scroll: int, pointer: Vec2) -> ViewportModel {
        ViewportModel {
            delta_scale: saturate(self.delta_scale + scroll),
            scale_pivot: saturated(pointer),
            ..self
        }
    }

    /// Whether the momentum is large enough to change the zoom.
    pub open spec fn zooming(self) -> bool {
        magnitude(self.delta_scale) > ZOOM_THRESHOLD
    }

    /// The zoom after a frame of `dt` seconds.
    pub open spec fn next_zoom(self, dt: int) -> int {
        clamp(
            self.camera.zoom + scaled_mul(self.delta_scale, dt),
            ZOOM_MIN as int,
            ZOOM_MAX as int,
        )
    }

    /// The pivot divided by a zoom factor.
    pub open spec fn pivot_at(self, zoom: int) -> Vec2 {
        Vec2 { x: scaled_div(self.scale_pivot.x, zoom), y: scaled_div(self.scale_pivot.y, zoom) }
    }

    /// The target that keeps the world point under the pivot in place while
    /// the zoom goes to `next_zoom(dt)`, before saturation.
    pub open spec fn anchored_target(self, dt: int) -> Vec2 {
        self.camera.target.plus(
            self.pivot_at(self.camera.zoom).minus(self.pivot_at(self.next_zoom(dt))),
        )
    }

    /// One frame of zoom: while the momentum is above the threshold, the
    /// zoom takes `delta_scale * dt`, the target shifts so that the pivot
    /// stays over the same world point, and the momentum decays.
    pub open spec fn integrate_zoom(self, dt: int) -> ViewportModel {
        if self.zooming() {
            ViewportModel {
                camera: CameraModel {
                    zoom: self.next_zoom(dt),
                    target: saturated(self.anchored_target(dt)),
                },
                delta_scale: saturate(decayed(self.delta_scale, dt, ZOOM_DECAY as int)),
                ..self
            }
        } else {
            self
        }
    }

    /// The world displacement of a pointer that moved by `delta` to
    /// `pointer`: where it was, less where it is.
    pub open spec fn displacement(self, pointer: Vec2, delta: Vec2) -> Vec2 {
        self.camera.world_of(pointer.minus(delta)).minus(self.camera.world_of(pointer))
    }

    /// A frame with the primary button held: the target follows the
    /// pointer, and the velocity is the displacement times the estimated
    /// frame rate. The frame's own duration plays no part in it, so that a
    /// frame that took no time still gives a velocity.
    pub open spec fn drag(self, pointer: Vec2, delta: Vec2, frame_rate: int) -> ViewportModel {
        let d = self.displacement(pointer, delta);
        ViewportModel {
            camera: CameraModel {
                zoom: self.camera.zoom,
                target: saturated(self.camera.target.plus(d)),
            },
            velocity: saturated(Vec2 { x: d.x * frame_rate, y: d.y * frame_rate }),
            ..self
        }
    }

    /// Whether the velocity is above the settle speed.
    pub open spec fn moving(self) -> bool {
        self.velocity.x * self.velocity.x + self.velocity.y * self.velocity.y > SETTLE_SPEED
            * SETTLE_SPEED
    }

    /// A frame with the primary button released: while moving, the target
    /// advances by `velocity * dt` and the velocity decays; once settled,
    /// nothing changes.
    pub open spec fn coast(self, dt: int) -> ViewportModel {
        if self.moving() {
            ViewportModel {
                camera: CameraModel {
                    zoom: self.camera.zoom,
                    target: saturated(
                        Vec2 {
                            x: self.camera.target.x + scaled_mul(self.velocity.x, dt),
                            y: self.camera.target.y + scaled_mul(self.velocity.y, dt),
                        },
                    ),
                },
                velocity: saturated(
                    Vec2 {
                        x: decayed(self.velocity.x, dt, PAN_DECAY as int),
                        y: decayed(self.velocity.y, dt, PAN_DECAY as int),
                    },
                ),
                ..self
            }
        } else {
            self
        }
    }

    /// One frame of panning: a drag while the primary button is held, else
    /// a coast.
    pub open spec fn pan(self, input: FrameInput) -> ViewportModel {
        if input.primary_down {
            self.drag(input.pointer@, input.pointer_delta@, input.frame_rate as int)
        } else {
            self.coast(input.frame_time as int)
        }
    }

    /// The scroll of a frame, taken in only where it is routed to the zoom.
    pub open spec fn classify(self, input: FrameInput) -> ViewportModel {
        if input.target() == ScrollTarget::Zoom {
            self.absorb_scroll(input.scroll as int, input.pointer@)
        } else {
            self
        }
    }

    /// One frame: classify the scroll, integrate the zoom, then pan.
    pub open spec fn step(self, input: FrameInput) -> ViewportModel {
        self.classify(input).integrate_zoom(input.frame_time as int).pan(input)
    }
}

/// A step keeps a valid viewport valid: whatever the frame's input, the zoom
/// stays within `[ZOOM_MIN, ZOOM_MAX]` and every quantity within the limit.
pub proof fn lemma_step_valid(m: ViewportModel, input: FrameInput)
    requires
        m.valid(),
    ensures
        m.step(input).valid(),
        ZOOM_MIN <= m.step(input).camera.zoom <= ZOOM_MAX,
{
}

/// Zoom integration holds the pivot over its world point: unless the target
/// saturates, the world point under the pivot is the same after the step
/// as before it.
pub proof fn lemma_zoom_anchored(m: ViewportModel, dt: int)
    requires
        m.valid(),
        m.anchored_target(dt).within(LIMIT as int),
    ensures
        m.integrate_zoom(dt).camera.world_of(m.scale_pivot) == m.camera.world_of(m.scale_pivot),
{
}

/// The zoom moves the way the momentum points, or stays: over a frame that
/// took no negative time it does not fall while the momentum is positive,
/// and does not rise while it is negative.
pub proof fn lemma_zoom_follows_momentum(m: ViewportModel, dt: int)
    requires
        m.valid(),
        dt >= 0,
    ensures
        m.delta_scale >= 0 ==> m.integrate_zoom(dt).camera.zoom >= m.camera.zoom,
        m.delta_scale <= 0 ==> m.integrate_zoom(dt).camera.zoom <= m.camera.zoom,
{
    let p = m.delta_scale * dt;
    assert((m.delta_scale >= 0 ==> p >= 0) && (m.delta_scale <= 0 ==> p <= 0))
        by (nonlinear_arith)
        requires
            p == m.delta_scale * dt,
            dt >= 0,
    ;
    crate::fixed::lemma_div_bounds(p, SCALE as int);
}

/// The zoom momentum only decays: over a frame that took at most half a
/// second its magnitude does not grow, and over one that took at most a
/// quarter of a second it also keeps its sign.
pub proof fn lemma_momentum_decays(m: ViewportModel, dt: int)
    requires
        m.valid(),
        0 <= dt,
        dt * ZOOM_DECAY <= 2 * SCALE,
    ensures
        magnitude(m.integrate_zoom(dt).delta_scale) <= magnitude(m.delta_scale),
        dt * ZOOM_DECAY <= SCALE && m.delta_scale >= 0 ==> m.integrate_zoom(dt).delta_scale >= 0,
        dt * ZOOM_DECAY <= SCALE && m.delta_scale <= 0 ==> m.integrate_zoom(dt).delta_scale <= 0,
{
    lemma_decay_shrinks(m.delta_scale, dt, ZOOM_DECAY as int);
}

/// After release the velocity only decays: in a frame without the primary
/// button held that took at most a third of a second, neither coordinate of
/// the velocity grows in magnitude, nor does its squared length; and once
/// the viewport is not moving, panning changes neither the velocity nor
/// the target.
pub proof fn lemma_release_decays(m: ViewportModel, input: FrameInput)
    requires
        m.valid(),
        !input.primary_down,
        0 <= input.frame_time,
        input.frame_time * PAN_DECAY <= 2 * SCALE,
    ensures
        magnitude(m.step(input).velocity.x) <= magnitude(m.velocity.x),
        magnitude(m.step(input).velocity.y) <= magnitude(m.velocity.y),
        m.step(input).velocity.x * m.step(input).velocity.x + m.step(input).velocity.y * m.step(
            input,
        ).velocity.y <= m.velocity.x * m.velocity.x + m.velocity.y * m.velocity.y,
        !m.moving() ==> m.step(input).velocity == m.velocity && m.step(input).camera
            == m.classify(input).integrate_zoom(input.frame_time as int).camera,
{
    let dt = input.frame_time as int;
    let before = m.classify(input).integrate_zoom(dt);
    assert(before.velocity == m.velocity);
    let after = before.coast(dt);
    assert(after == m.step(input));
    lemma_decay_shrinks(m.velocity.x, dt, PAN_DECAY as int);
    lemma_decay_shrinks(m.velocity.y, dt, PAN_DECAY as int);
    lemma_square_monotone(after.velocity.x, m.velocity.x);
    lemma_square_monotone(after.velocity.y, m.velocity.y);
}

/// A number of smaller magnitude has a smaller square.
pub proof fn lemma_square_monotone(a: int, b: int)
    by (nonlinear_arith)
    requires
        magnitude(a) <= magnitude(b),
    ensures
        a * a <= b * b,
{
}

/// The zoom, the pan target and their momenta.
#[derive(Clone, Copy, Debug)]
pub struct Viewport {
    camera: Camera,
    delta_scale: i64,
    scale_pivot: Point,
    velocity: Point,
}

impl View for Viewport {
    type V = ViewportModel;

    closed spec fn view(&self) -> ViewportModel {
        ViewportModel {
            camera: self.camera@,
            delta_scale: self.delta_scale as int,
            scale_pivot: self.scale_pivot@,
            velocity: self.velocity@,
        }
    }
}

impl Viewport {
    /// What holds of every value of the type.
    #[verifier::type_invariant]
    pub open spec fn inv(self) -> bool {
        self@.valid()
    }

    /// The model of the viewport at rest.
    pub open spec fn new_model() -> ViewportModel {
        ViewportModel {
            camera: CameraModel { zoom: SCALE as int, target: Vec2 { x: 0, y: 0 } },
            delta_scale: 0,
            scale_pivot: Vec2 { x: 0, y: 0 },
            velocity: Vec2 { x: 0, y: 0 },
        }
    }

    /// The viewport at rest: zoom 1.0, target at the origin, no momentum.
    pub fn new() -> (v: Viewport)
        ensures
            v@ == Viewport::new_model(),
            v@.valid(),
    {
        Viewport {
            camera: Camera::new(),
            delta_scale: 0,
            scale_pivot: Point { x: 0, y: 0 },
            velocity: Point { x: 0, y: 0 },
        }
    }

    /// The camera.
    pub fn camera(&self) -> (c: Camera)
        ensures
            c@ == self@.camera,
            c@.valid(),
    {
        proof {
            use_type_invariant(self);
        }
        self.camera
    }

    /// The scroll that has not yet turned into zoom.
    pub fn delta_scale(&self) -> (d: i64)
        ensures
            d == self@.delta_scale,
    {
        self.delta_scale
    }

    /// The screen point that the present zoom gesture holds in place.
    pub fn scale_pivot(&self) -> (p: Point)
        ensures
            p@ == self@.scale_pivot,
    {
        self.scale_pivot
    }

    /// The pan velocity.
    pub fn velocity(&self) -> (v: Point)
        ensures
            v@ == self@.velocity,
    {
        self.velocity
    }

    /// Takes a scroll in as a zoom gesture at `pointer`.
    pub fn absorb_scroll(self, scroll: i64, pointer: Point) -> (next: Viewport)
        ensures
            next@ == self@.absorb_scroll(scroll as int, pointer@),
            next@.valid(),
    {
        proof {
            use_type_invariant(&self);
        }
        Viewport {
            camera: self.camera,
            delta_scale: saturate_wide(self.delta_scale as i128 + scroll as i128),
            scale_pivot: Point {
                x: saturate_wide(pointer.x as i128),
                y: saturate_wide(pointer.y as i128),
            },
            velocity: self.velocity,
        }
    }

    /// One frame of zoom.
    pub fn integrate_zoom(self, frame_time: i64) -> (next: Viewport)
        ensures
            next@ == self@.integrate_zoom(frame_time as int),
            next@.valid(),
    {
        proof {
            use_type_invariant(&self);
        }
        if self.delta_scale > ZOOM_THRESHOLD || self.delta_scale < -ZOOM_THRESHOLD {
            let zoom0: i64 = self.camera.zoom();
            let target0 = self.camera.target();
            let gain: i128 = mul_wide(frame_time as i128, self.delta_scale);
            assert(gain == scaled_mul(self.delta_scale as int, frame_time as int)) by {
                assert(self.delta_scale * frame_time == frame_time * self.delta_scale)
                    by (nonlinear_arith);
            }
            let zoom1: i64 = clamp_wide(zoom0 as i128 + gain, ZOOM_MIN, ZOOM_MAX);
            let x: i128 = target0.x as i128 + (div_wide(self.scale_pivot.x as i128, zoom0)
                - div_wide(self.scale_pivot.x as i128, zoom1));
            let y: i128 = target0.y as i128 + (div_wide(self.scale_pivot.y as i128, zoom0)
                - div_wide(self.scale_pivot.y as i128, zoom1));
            let target1 = Point { x: saturate_wide(x), y: saturate_wide(y) };
            Viewport {
                camera: Camera::with(zoom1, target1),
                delta_scale: decay(self.delta_scale, frame_time, ZOOM_DECAY),
                scale_pivot: self.scale_pivot,
                velocity: self.velocity,
            }
        } else {
            self
        }
    }

    /// A frame with the primary button held.
    pub fn drag(self, pointer: Point, delta: Point, frame_rate: u32) -> (next: Viewport)
        ensures
            next@ == self@.drag(pointer@, delta@, frame_rate as int),
            next@.valid(),
    {
        proof {
            use_type_invariant(&self);
        }
        let zoom: i64 = self.camera.zoom();
        let target = self.camera.target();
        let was_x: i128 = div_wide(pointer.x as i128 - delta.x as i128, zoom) + target.x as i128;
        let was_y: i128 = div_wide(pointer.y as i128 - delta.y as i128, zoom) + target.y as i128;
        let is_x: i128 = div_wide(pointer.x as i128, zoom) + target.x as i128;
        let is_y: i128 = div_wide(pointer.y as i128, zoom) + target.y as i128;
        let dx: i128 = was_x - is_x;
        let dy: i128 = was_y - is_y;
        assert(-0x100_0000_0000_0000_0000_0000_0000_0000 <= dx * frame_rate
            <= 0x100_0000_0000_0000_0000_0000_0000_0000 && -0x100_0000_0000_0000_0000_0000_0000_0000
            <= dy * frame_rate <= 0x100_0000_0000_0000_0000_0000_0000_0000) by (nonlinear_arith)
            requires
                -0x100_0000_0000_0000_0000_0000 <= dx <= 0x100_0000_0000_0000_0000_0000,
                -0x100_0000_0000_0000_0000_0000 <= dy <= 0x100_0000_0000_0000_0000_0000,
                0 <= frame_rate <= 0xffff_ffff,
        ;
        let moved = Point {
            x: saturate_wide(target.x as i128 + dx),
            y: saturate_wide(target.y as i128 + dy),
        };
        Viewport {
            camera: Camera::with(zoom, moved),
            delta_scale: self.delta_scale,
            scale_pivot: self.scale_pivot,
            velocity: Point {
                x: saturate_wide(dx * (frame_rate as i128)),
                y: saturate_wide(dy * (frame_rate as i128)),
            },
        }
    }

    /// Whether the velocity is above the settle speed.
    pub fn is_moving(&self) -> (m: bool)
        ensures
            m == self@.moving(),
    {
        proof {
            use_type_invariant(self);
        }
        let vx: i128 = self.velocity.x as i128;
        let vy: i128 = self.velocity.y as i128;
        assert(0 <= vx * vx <= 1_000_000_000_000_000 * 1_000_000_000_000_000 && 0 <= vy * vy
            <= 1_000_000_000_000_000 * 1_000_000_000_000_000) by (nonlinear_arith)
            requires
                -1_000_000_000_000_000 <= vx <= 1_000_000_000_000_000,
                -1_000_000_000_000_000 <= vy <= 1_000_000_000_000_000,
        ;
        assert(SETTLE_SPEED * SETTLE_SPEED == 225_000_000_000_000) by (nonlinear_arith);
        vx * vx + vy * vy > 225_000_000_000_000
    }

    /// A frame with the primary button released.
    pub fn coast(self, frame_time: i64) -> (next: Viewport)
        ensures
            next@ == self@.coast(frame_time as int),
            next@.valid(),
    {
        proof {
            use_type_invariant(&self);
        }
        if self.is_moving() {
            let zoom: i64 = self.camera.zoom();
            let target = self.camera.target();
            let sx: i128 = mul_wide(frame_time as i128, self.velocity.x);
            let sy: i128 = mul_wide(frame_time as i128, self.velocity.y);
            proof {
                assert(self.velocity.x * frame_time == frame_time * self.velocity.x)
                    by (nonlinear_arith);
                assert(self.velocity.y * frame_time == frame_time * self.velocity.y)
                    by (nonlinear_arith);
            }
            let moved = Point {
                x: saturate_wide(target.x as i128 + sx),
                y: saturate_wide(target.y as i128 + sy),
            };
            Viewport {
                camera: Camera::with(zoom, moved),
                delta_scale: self.delta_scale,
                scale_pivot: self.scale_pivot,
                velocity: Point {
                    x: decay(self.velocity.x, frame_time, PAN_DECAY),
                    y: decay(self.velocity.y, frame_time, PAN_DECAY),
                },
            }
        } else {
            self
        }
    }

    /// One frame of panning.
    pub fn pan(self, input: &FrameInput) -> (next: Viewport)
        ensures
            next@ == self@.pan(*input),
            next@.valid(),
    {
        if input.primary_down {
            self.drag(input.pointer, input.pointer_delta, input.frame_rate)
        } else {
            self.coast(input.frame_time)
        }
    }

    /// One frame: classify the scroll, integrate the zoom, then pan.
    pub fn step(self, input: &FrameInput) -> (next: Viewport)
        ensures
            next@ == self@.step(*input),
            next@.valid(),
    {
        let taken = match input.scroll_target() {
            ScrollTarget::Zoom => self.absorb_scroll(input.scroll, input.pointer),
            _ => self,
        };
        taken.integrate_zoom(input.frame_time).pan(input)
    }
}

} // verus!
