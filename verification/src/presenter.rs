//! The presentation loop as a state machine: what to do with each capture
//! and with each frame's input. The loop itself, which captures and draws,
//! belongs to the caller.

use crate::camera::{saturated, Camera};
use crate::capture::{CaptureError, PixelBuffer, PixelModel};
use crate::geometry::Region;
use crate::input::FrameInput;
use crate::lens::{Lens, LensModel};
use crate::magnifier::{opaque_white, ShaderParams};
use crate::spotlight::{Spotlight, SpotlightKick, SpotlightModel};
use vstd::prelude::*;

verus! {

/// How the viewer runs; chosen once, at the start.
#[derive(Clone, Copy, Debug, PartialEq, Eq, Structural)]
pub enum Mode {
    /// One capture at the start, shown under a spotlight.
    Snapshot,
    /// A capture every frame, shown through the magnifying lens.
    LiveLens,
}

/// How far the loop has come.
#[derive(Clone, Copy, Debug, PartialEq, Eq, Structural)]
pub enum Stage {
    /// No capture has arrived yet.
    Starting,
    /// There is a texture to show.
    Running,
    /// The loop has ended.
    Stopped,
}

/// What became of a capture.
#[derive(Clone, Copy, Debug, PartialEq, Eq, Structural)]
pub enum CaptureVerdict {
    /// The capture is the new texture.
    Refresh,
    /// The capture failed; the texture of the frame before stays.
    Retain,
    /// The first capture failed; there is nothing to show, the loop ends.
    Fatal,
    /// No capture was wanted; nothing changed.
    Ignored,
}

/// What to do for a frame.
#[derive(Clone, Copy, Debug)]
pub enum FrameAction {
    /// There is no texture yet: draw nothing.
    Wait,
    /// The loop has ended: draw nothing more.
    Stop,
    /// Draw the texture through the lens.
    DrawLens { camera: Camera, params: ShaderParams },
    /// Draw the texture under the spotlight.
    DrawSnapshot { camera: Camera, dimmed: bool, spotlight: i64 },
}

/// The model of a [`Presenter`].
pub struct PresenterModel {
    pub mode: Mode,
    pub region: Region,
    /// The texture on display, if any.
    pub texture: Option<PixelModel>,
    pub stopped: bool,
    pub lens: LensModel,
    pub spotlight: SpotlightModel,
    /// Where a kick puts the spotlight, in the snapshot mode.
    pub kick: Option<SpotlightModel>,
    /// The captures that failed while a texture was on display.
    pub transient_failures: int,
}

impl PresenterModel {
    /// The state is valid, and a texture on display covers the region.
    pub open spec fn valid(self) -> bool {
        &&& self.lens.valid()
        &&& self.spotlight.valid()
        &&& self.kick matches Some(k) ==> k.valid()
        &&& 0 <= self.transient_failures <= u64::MAX
        &&& self.texture matches Some(t) ==> t.valid() && t.covers(self.region)
    }

    /// How far the loop has come.
    pub open spec fn stage(self) -> Stage {
        if self.stopped {
            Stage::Stopped
        } else if self.texture.is_none() {
            Stage::Starting
        } else {
            Stage::Running
        }
    }

    /// Whether the loop should capture before the next frame: at the
    /// start, and from then on in the live mode.
    pub open spec fn wants_capture(self) -> bool {
        match self.stage() {
            Stage::Starting => true,
            Stage::Running => self.mode == Mode::LiveLens,
            Stage::Stopped => false,
        }
    }

    /// What becomes of a capture that is usable, or is not.
    pub open spec fn verdict(self, usable: bool) -> CaptureVerdict {
        if !self.wants_capture() {
            CaptureVerdict::Ignored
        } else if usable {
            CaptureVerdict::Refresh
        } else if self.texture.is_none() {
            CaptureVerdict::Fatal
        } else {
            CaptureVerdict::Retain
        }
    }

    /// The state after a capture: a usable one becomes the texture; a
    /// failed first one ends the loop; a later failure is counted and the
    /// texture stays.
    pub open spec fn after_capture(self, outcome: Result<PixelModel, CaptureError>)
        -> PresenterModel {
        match self.verdict(usable(outcome, self.region)) {
            CaptureVerdict::Refresh => PresenterModel { texture: Some(outcome->Ok_0), ..self },
            CaptureVerdict::Fatal => PresenterModel { stopped: true, ..self },
            CaptureVerdict::Retain => PresenterModel {
                transient_failures: if self.transient_failures < u64::MAX {
                    self.transient_failures + 1
                } else {
                    self.transient_failures
                },
                ..self
            },
            CaptureVerdict::Ignored => self,
        }
    }

    /// Whether the frame's input ends the loop.
    pub open spec fn quits(input: FrameInput, close_requested: bool) -> bool {
        input.quit_pressed || input.exit_pressed || close_requested
    }

    /// The state after a frame: while running, a quit ends the loop at
    /// once; otherwise the controllers of the mode take the input.
    pub open spec fn after_frame(self, input: FrameInput, close_requested: bool)
        -> PresenterModel {
        if self.stage() != Stage::Running {
            self
        } else if Self::quits(input, close_requested) {
            PresenterModel { stopped: true, ..self }
        } else {
            match self.mode {
                Mode::LiveLens => PresenterModel { lens: self.lens.step(input), ..self },
                Mode::Snapshot => PresenterModel {
                    lens: LensModel {
                        viewport: self.lens.viewport.step(input),
                        magnifier: self.lens.magnifier,
                    },
                    spotlight: self.spotlight.step(input, self.kick),
                    ..self
                },
            }
        }
    }
    /// Whether `action` is the answer to a frame: nothing to draw before
    /// the first texture and after the end; else the camera after the
    /// step, with the parameters of the lens centred under the pointer in
    /// the live mode, and with the dimming and the spotlight in the
    /// snapshot mode, where the background is dimmed while control is held.
    pub open spec fn answers(self, input: FrameInput, close_requested: bool, action: FrameAction)
        -> bool {
        let next = self.after_frame(input, close_requested);
        match self.stage() {
            Stage::Starting => action is Wait,
            Stage::Stopped => action is Stop,
            Stage::Running => if Self::quits(input, close_requested) {
                action is Stop
            } else {
                match action {
                    FrameAction::DrawLens { camera, params } => {
                        &&& self.mode == Mode::LiveLens
                        &&& camera@ == next.lens.viewport.camera
                        &&& params.center@ == saturated(
                            next.lens.viewport.camera.world_of(input.pointer@),
                        )
                        &&& params.radius == next.lens.magnifier.radius
                        &&& params.magnification == next.lens.magnifier.magnification
                        &&& params.texture_width == self.region.width
                        &&& params.texture_height == self.region.height
                        &&& params.color_multiplier == opaque_white()
                    },
                    FrameAction::DrawSnapshot { camera, dimmed, spotlight } => {
                        &&& self.mode == Mode::Snapshot
                        &&& camera@ == next.lens.viewport.camera
                        &&& dimmed == input.ctrl_held
                        &&& spotlight == next.spotlight.multiplier
                    },
                    _ => false,
                }
            },
        }
    }
}

/// Whether a capture arrived and is exactly as large as the region.
pub open spec fn usable(outcome: Result<PixelModel, CaptureError>, region: Region) -> bool {
    outcome matches Ok(image) && image.covers(region)
}

/// The model of what a capture source handed over.
pub open spec fn outcome_model(outcome: Result<PixelBuffer, CaptureError>) -> Result<
    PixelModel,
    CaptureError,
> {
    match outcome {
        Ok(image) => Ok(image@),
        Err(e) => Err(e),
    }
}

/// A failed capture never changes what is on display: whatever the state,
/// the texture after a capture that was not usable is the texture before.
pub proof fn lemma_failure_keeps_texture(m: PresenterModel, outcome: Result<PixelModel, CaptureError>)
    requires
        !usable(outcome, m.region),
    ensures
        m.after_capture(outcome).texture == m.texture,
        m.stage() == Stage::Running ==> m.after_capture(outcome).stage() == Stage::Running,
{
}

/// The state of the presentation loop.
#[derive(Debug)]
pub struct Presenter {
    mode: Mode,
    region: Region,
    texture: Option<PixelBuffer>,
    stopped: bool,
    lens: Lens,
    spotlight: Spotlight,
    kick: Option<SpotlightKick>,
    transient_failures: u64,
}

impl View for Presenter {
    type V = PresenterModel;

    closed spec fn view(&self) -> PresenterModel {
        PresenterModel {
            mode: self.mode,
            region: self.region,
            texture: match self.texture {
                Some(t) => Some(t@),
                None => None,
            },
            stopped: self.stopped,
            lens: self.lens@,
            spotlight: self.spotlight@,
            kick: match self.kick {
                Some(k) => Some(k@),
                None => None,
            },
            transient_failures: self.transient_failures as int,
        }
    }
}

impl Presenter {
    /// What holds of every value of the type.
    #[verifier::type_invariant]
    pub open spec fn inv(self) -> bool {
        self@.valid()
    }

    /// The model of a presenter that has not yet seen a capture.
    pub open spec fn initial(
        mode: Mode,
        region: Region,
        rest: int,
        kick: Option<SpotlightModel>,
    ) -> PresenterModel {
        PresenterModel {
            mode,
            region,
            texture: None,
            stopped: false,
            lens: LensModel {
                viewport: crate::viewport::Viewport::new_model(),
                magnifier: crate::magnifier::Magnifier::new_model(),
            },
            spotlight: SpotlightModel { multiplier: crate::fixed::saturate(rest), delta: 0 },
            kick,
            transient_failures: 0,
        }
    }

    /// The presenter of the live mode over `region`.
    pub fn live_lens(region: Region) -> (p: Presenter)
        ensures
            p@ == Presenter::initial(Mode::LiveLens, region, 0, None),
            p@.valid(),
    {
        Presenter {
            mode: Mode::LiveLens,
            region,
            texture: None,
            stopped: false,
            lens: Lens::new(),
            spotlight: Spotlight::new(0),
            kick: None,
            transient_failures: 0,
        }
    }

    /// The presenter of the snapshot mode over `region`, its spotlight at
    /// rest at `rest` and kicked to `kick`.
    pub fn snapshot(region: Region, rest: i64, kick: SpotlightKick) -> (p: Presenter)
        ensures
            p@ == Presenter::initial(Mode::Snapshot, region, rest as int, Some(kick@)),
            p@.valid(),
    {
        proof {
            use_type_invariant(&kick);
        }
        Presenter {
            mode: Mode::Snapshot,
            region,
            texture: None,
            stopped: false,
            lens: Lens::new(),
            spotlight: Spotlight::new(rest),
            kick: Some(kick),
            transient_failures: 0,
        }
    }

    /// The mode.
    pub fn mode(&self) -> (m: Mode)
        ensures
            m == self@.mode,
    {
        self.mode
    }

    /// The region that is captured.
    pub fn region(&self) -> (r: Region)
        ensures
            r == self@.region,
    {
        self.region
    }

    /// How far the loop has come.
    pub fn stage(&self) -> (s: Stage)
        ensures
            s == self@.stage(),
    {
        if self.stopped {
            Stage::Stopped
        } else if self.texture.is_none() {
            Stage::Starting
        } else {
            Stage::Running
        }
    }

    /// The texture on display, if any.
    pub fn texture(&self) -> (t: Option<&PixelBuffer>)
        ensures
            t.is_some() <==> self@.texture.is_some(),
            t matches Some(image) ==> self@.texture == Some(image@) && image@.covers(
                self@.region,
            ),
    {
        proof {
            use_type_invariant(self);
        }
        self.texture.as_ref()
    }

    /// The lens.
    pub fn lens(&self) -> (l: Lens)
        ensures
            l@ == self@.lens,
    {
        self.lens
    }

    /// The spotlight.
    pub fn spotlight(&self) -> (s: Spotlight)
        ensures
            s@ == self@.spotlight,
    {
        self.spotlight
    }

    /// The captures that failed while a texture was on display.
    pub fn transient_failures(&self) -> (n: u64)
        ensures
            n == self@.transient_failures,
    {
        self.transient_failures
    }

    /// Whether the loop should capture before the next frame.
    pub fn wants_capture(&self) -> (w: bool)
        ensures
            w == self@.wants_capture(),
    {
        match self.stage() {
            Stage::Starting => true,
            Stage::Running => self.mode == Mode::LiveLens,
            Stage::Stopped => false,
        }
    }

    /// Takes in what the capture source handed over.
    pub fn accept_capture(self, outcome: Result<PixelBuffer, CaptureError>) -> (r: (
        Presenter,
        CaptureVerdict,
    ))
        ensures
            r.0@ == self@.after_capture(outcome_model(outcome)),
            r.1 == self@.verdict(usable(outcome_model(outcome), self@.region)),
            r.0@.valid(),
    {
        proof {
            use_type_invariant(&self);
        }
        if !self.wants_capture() {
            return (self, CaptureVerdict::Ignored);
        }
        match outcome {
            Ok(image) => {
                proof {
                    use_type_invariant(&image);
                }
                if image.covers(&self.region) {
                    return (Presenter { texture: Some(image), ..self }, CaptureVerdict::Refresh);
                }
            },
            Err(_) => {},
        }
        if self.texture.is_none() {
            (Presenter { stopped: true, ..self }, CaptureVerdict::Fatal)
        } else {
            let failures: u64 = if self.transient_failures < u64::MAX {
                self.transient_failures + 1
            } else {
                self.transient_failures
            };
            (Presenter { transient_failures: failures, ..self }, CaptureVerdict::Retain)
        }
    }

    /// Takes in a frame's input and says what to draw.
    pub fn on_frame(self, input: &FrameInput, close_requested: bool) -> (r: (
        Presenter,
        FrameAction,
    ))
        ensures
            r.0@ == self@.after_frame(*input, close_requested),
            r.0@.valid(),
            self@.answers(*input, close_requested, r.1),
    {
        proof {
            use_type_invariant(&self);
        }
        match self.stage() {
            Stage::Starting => {
                return (self, FrameAction::Wait);
            },
            Stage::Stopped => {
                return (self, FrameAction::Stop);
            },
            Stage::Running => {},
        }
        if input.wants_quit(close_requested) {
            return (Presenter { stopped: true, ..self }, FrameAction::Stop);
        }
        match self.mode {
            Mode::LiveLens => {
                let lens = self.lens.step(input);
                let action = FrameAction::DrawLens {
                    camera: lens.viewport.camera(),
                    params: lens.parameters(input.pointer, &self.region),
                };
                (Presenter { lens, ..self }, action)
            },
            Mode::Snapshot => {
                let lens = Lens {
                    viewport: self.lens.viewport.step(input),
                    magnifier: self.lens.magnifier,
                };
                let spotlight = self.spotlight.step(input, &self.kick);
                let action = FrameAction::DrawSnapshot {
                    camera: lens.viewport.camera(),
                    dimmed: input.ctrl_held,
                    spotlight: spotlight.multiplier(),
                };
                (Presenter { lens, spotlight, ..self }, action)
            },
        }
    }
}

} // verus!
