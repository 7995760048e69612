//! The magnifier controller: the radius and magnification of the lens, and
//! the parameters handed to the magnification effect.

use crate::camera::{saturated, Camera};
use crate::fixed::{clamp, clamp_wide, mul_wide, scaled_mul, SCALE};
use crate::geometry::{Point, Region};
use crate::input::{FrameInput, ScrollTarget};
use vstd::prelude::*;

verus! {

/// The smallest magnification: 1.0.
pub const MAGNIFICATION_MIN: i64 = 1_000_000;

/// The largest magnification: 5.0.
pub const MAGNIFICATION_MAX: i64 = 5_000_000;

/// The magnification gained per unit of scroll: 0.1.
pub const MAGNIFICATION_STEP: i64 = 100_000;

/// The magnification of a new lens: 2.0.
pub const MAGNIFICATION_START: i64 = 2_000_000;

/// The smallest radius: 20.0.
pub const RADIUS_MIN: i64 = 20_000_000;

/// The largest radius: 300.0.
pub const RADIUS_MAX: i64 = 300_000_000;

/// The radius gained per unit of scroll: 10.0.
pub const RADIUS_STEP: i64 = 10_000_000;

/// The radius of a new lens: 100.0.
pub const RADIUS_START: i64 = 100_000_000;

/// The model of a [`Magnifier`].
pub struct MagnifierModel {
    pub radius: int,
    pub magnification: int,
}

impl MagnifierModel {
    /// The radius lies in `[RADIUS_MIN, RADIUS_MAX]` and the magnification
    /// in `[MAGNIFICATION_MIN, MAGNIFICATION_MAX]`.
    pub open spec fn valid(self) -> bool {
        &&& RADIUS_MIN <= self.radius <= RADIUS_MAX
        &&& MAGNIFICATION_MIN <= self.magnification <= MAGNIFICATION_MAX
    }

    /// The magnification after a scroll routed to it.
    pub open spec fn magnified(self, scroll: int) -> MagnifierModel {
        MagnifierModel {
            magnification: clamp(
                self.magnification + scaled_mul(scroll, MAGNIFICATION_STEP as int),
                MAGNIFICATION_MIN as int,
                MAGNIFICATION_MAX as int,
            ),
            ..self
        }
    }

    /// The radius after a scroll routed to it.
    pub open spec fn resized(self, scroll: int) -> MagnifierModel {
        MagnifierModel {
            radius: clamp(
                self.radius + scaled_mul(scroll, RADIUS_STEP as int),
                RADIUS_MIN as int,
                RADIUS_MAX as int,
            ),
            ..self
        }
    }

    /// One frame: the scroll changes the magnification, the radius or
    /// neither, as it is routed.
    pub open spec fn adjust(self, input: FrameInput) -> MagnifierModel {
        match input.target() {
            ScrollTarget::Magnification => self.magnified(input.scroll as int),
            ScrollTarget::Radius => self.resized(input.scroll as int),
            _ => self,
        }
    }
}

/// A step keeps a valid magnifier valid: whatever the scroll, its sign or
/// its size, the magnification stays within `[1.0, 5.0]` and the radius
/// within `[20.0, 300.0]`.
pub proof fn lemma_adjust_valid(m: MagnifierModel, input: FrameInput)
    requires
        m.valid(),
    ensures
        m.adjust(input).valid(),
{
}

/// A colour, each channel a fixed-point quantity in `[0, 1]`.
#[derive(Clone, Copy, Debug, PartialEq, Eq, Structural)]
pub struct Rgba {
    pub red: i64,
    pub green: i64,
    pub blue: i64,
    pub alpha: i64,
}

/// The colour that leaves a texture as it is: one in every channel.
pub open spec fn opaque_white() -> Rgba {
    Rgba { red: SCALE, green: SCALE, blue: SCALE, alpha: SCALE }
}

/// What the magnification effect is fed for one frame.
#[derive(Clone, Copy, Debug, PartialEq, Eq, Structural)]
pub struct ShaderParams {
    /// The centre of the lens, in world space.
    pub center: Point,
    /// The radius of the lens.
    pub radius: i64,
    /// The width of the texture, in pixels.
    pub texture_width: i32,
    /// The height of the texture, in pixels.
    pub texture_height: i32,
    /// The colour that the texture is multiplied by.
    pub color_multiplier: Rgba,
    /// The magnification of the lens.
    pub magnification: i64,
}

/// The radius and the magnification of the lens.
#[derive(Clone, Copy, Debug)]
pub struct Magnifier {
    radius: i64,
    magnification: i64,
}

impl View for Magnifier {
    type V = MagnifierModel;

    closed spec fn view(&self) -> MagnifierModel {
        MagnifierModel { radius: self.radius as int, magnification: self.magnification as int }
    }
}

impl Magnifier {
    /// What holds of every value of the type.
    #[verifier::type_invariant]
    pub open spec fn inv(self) -> bool {
        self@.valid()
    }

    /// The model of a new lens.
    pub open spec fn new_model() -> MagnifierModel {
        MagnifierModel { radius: RADIUS_START as int, magnification: MAGNIFICATION_START as int }
    }

    /// A lens of radius 100.0 and magnification 2.0.
    pub fn new() -> (m: Magnifier)
        ensures
            m@ == Magnifier::new_model(),
            m@.valid(),
    {
        Magnifier { radius: RADIUS_START, magnification: MAGNIFICATION_START }
    }

    /// The radius.
    pub fn radius(&self) -> (r: i64)
        ensures
            r == self@.radius,
            RADIUS_MIN <= r <= RADIUS_MAX,
    {
        proof {
            use_type_invariant(self);
        }
        self.radius
    }

    /// The magnification.
    pub fn magnification(&self) -> (m: i64)
        ensures
            m == self@.magnification,
            MAGNIFICATION_MIN <= m <= MAGNIFICATION_MAX,
    {
        proof {
            use_type_invariant(self);
        }
        self.magnification
    }

    /// One frame: the scroll changes the magnification, the radius or
    /// neither, as it is routed.
    pub fn adjust(self, input: &FrameInput) -> (next: Magnifier)
        ensures
            next@ == self@.adjust(*input),
            next@.valid(),
    {
        proof {
            use_type_invariant(&self);
        }
        match input.scroll_target() {
            ScrollTarget::Magnification => {
                let gain: i128 = mul_wide(input.scroll as i128, MAGNIFICATION_STEP);
                Magnifier {
                    radius: self.radius,
                    magnification: clamp_wide(
                        self.magnification as i128 + gain,
                        MAGNIFICATION_MIN,
                        MAGNIFICATION_MAX,
                    ),
                }
            },
            ScrollTarget::Radius => {
                let gain: i128 = mul_wide(input.scroll as i128, RADIUS_STEP);
                Magnifier {
                    radius: clamp_wide(self.radius as i128 + gain, RADIUS_MIN, RADIUS_MAX),
                    magnification: self.magnification,
                }
            },
            _ => self,
        }
    }

    /// The parameters of the effect for a frame: the lens is centred on
    /// the world point under the pointer, the texture has the size of the
    /// region, and the colour multiplier is one throughout.
    pub fn parameters(&self, camera: &Camera, pointer: Point, region: &Region) -> (p:
        ShaderParams)
        ensures
            p.center@ == saturated(camera@.world_of(pointer@)),
            p.radius == self@.radius,
            p.texture_width == region.width,
            p.texture_height == region.height,
            p.color_multiplier == opaque_white(),
            p.magnification == self@.magnification,
    {
        ShaderParams {
            center: camera.screen_to_world(pointer),
            radius: self.radius,
            texture_width: region.width,
            texture_height: region.height,
            color_multiplier: Rgba { red: SCALE, green: SCALE, blue: SCALE, alpha: SCALE },
            magnification: self.magnification,
        }
    }
}

} // verus!
