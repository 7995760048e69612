//! The live lens: a viewport and a magnifier that take each frame's input
//! together, the scroll going to exactly one of them.

use crate::camera::{saturated, ZOOM_MAX, ZOOM_MIN};
use crate::geometry::{Point, Region};
use crate::input::FrameInput;
use crate::magnifier::{
    opaque_white, Magnifier, MagnifierModel, ShaderParams, MAGNIFICATION_MAX, MAGNIFICATION_MIN,
    RADIUS_MAX, RADIUS_MIN,
};
use crate::viewport::{Viewport, ViewportModel};
use vstd::prelude::*;

verus! {

/// The model of a [`Lens`].
pub struct LensModel {
    pub viewport: ViewportModel,
    pub magnifier: MagnifierModel,
}

impl LensModel {
    /// Both controllers are valid.
    pub open spec fn valid(self) -> bool {
        self.viewport.valid() && self.magnifier.valid()
    }

    /// One frame: the viewport steps and the magnifier adjusts.
    pub open spec fn step(self, input: FrameInput) -> LensModel {
        LensModel {
            viewport: self.viewport.step(input),
            magnifier: self.magnifier.adjust(input),
        }
    }

    /// The lens after a sequence of frames, the first of them first.
    pub open spec fn run(self, inputs: Seq<FrameInput>) -> LensModel
        decreases inputs.len(),
    {
        if inputs.len() == 0 {
            self
        } else {
            self.run(inputs.drop_last()).step(inputs.last())
        }
    }
}

/// The same frame without its scroll.
pub open spec fn without_scroll(input: FrameInput) -> FrameInput {
    FrameInput { scroll: 0, ..input }
}

/// A scroll reaches one consumer. With shift held it changes at most the
/// magnification: the viewport steps as if there had been no scroll, and
/// the radius stays. With control held and shift not, it changes at most
/// the radius. With neither held it changes nothing in the magnifier.
pub proof fn lemma_scroll_routing(m: LensModel, input: FrameInput)
    ensures
        input.shift_held ==> m.step(input).viewport == m.step(without_scroll(input)).viewport
            && m.step(input).magnifier.radius == m.magnifier.radius,
        input.ctrl_held && !input.shift_held ==> m.step(input).viewport == m.step(
            without_scroll(input),
        ).viewport && m.step(input).magnifier.magnification == m.magnifier.magnification,
        !input.ctrl_held && !input.shift_held ==> m.step(input).magnifier == m.magnifier,
        m.step(without_scroll(input)).magnifier == m.magnifier,
{
}

/// A step keeps a valid lens valid.
pub proof fn lemma_step_valid(m: LensModel, input: FrameInput)
    requires
        m.valid(),
    ensures
        m.step(input).valid(),
{
}

/// Whatever the frames bring, in whatever order, the lens stays valid: the
/// zoom within `[0.1, 10.0]`, the magnification within `[1.0, 5.0]` and
/// the radius within `[20.0, 300.0]`.
pub proof fn lemma_run_valid(m: LensModel, inputs: Seq<FrameInput>)
    requires
        m.valid(),
    ensures
        m.run(inputs).valid(),
        ZOOM_MIN <= m.run(inputs).viewport.camera.zoom <= ZOOM_MAX,
        MAGNIFICATION_MIN <= m.run(inputs).magnifier.magnification <= MAGNIFICATION_MAX,
        RADIUS_MIN <= m.run(inputs).magnifier.radius <= RADIUS_MAX,
    decreases inputs.len(),
{
    if inputs.len() > 0 {
        lemma_run_valid(m, inputs.drop_last());
        lemma_step_valid(m.run(inputs.drop_last()), inputs.last());
    }
}

/// A viewport and a magnifier.
#[derive(Clone, Copy, Debug)]
pub struct Lens {
    pub viewport: Viewport,
    pub magnifier: Magnifier,
}

impl View for Lens {
    type V = LensModel;

    open spec fn view(&self) -> LensModel {
        LensModel { viewport: self.viewport@, magnifier: self.magnifier@ }
    }
}

impl Lens {
    /// The lens at rest.
    pub fn new() -> (l: Lens)
        ensures
            l.viewport@ == Viewport::new_model(),
            l.magnifier@ == Magnifier::new_model(),
            l@.valid(),
    {
        Lens { viewport: Viewport::new(), magnifier: Magnifier::new() }
    }

    /// One frame: the viewport steps and the magnifier adjusts.
    pub fn step(self, input: &FrameInput) -> (next: Lens)
        ensures
            next@ == self@.step(*input),
    {
        Lens { viewport: self.viewport.step(input), magnifier: self.magnifier.adjust(input) }
    }

    /// The parameters of the effect for a frame with the pointer at
    /// `pointer`, over a texture of the size of `region`.
    pub fn parameters(&self, pointer: Point, region: &Region) -> (p: ShaderParams)
        ensures
            p.center@ == saturated(self@.viewport.camera.world_of(pointer@)),
            p.radius == self@.magnifier.radius,
            p.texture_width == region.width,
            p.texture_height == region.height,
            p.color_multiplier == opaque_white(),
            p.magnification == self@.magnifier.magnification,
    {
        let camera = self.viewport.camera();
        self.magnifier.parameters(&camera, pointer, region)
    }
}

} // verus!
