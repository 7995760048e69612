//! The spotlight of the snapshot mode: a radius multiplier that a kick
//! sets in motion and that settles by the law of the zoom momentum.

use crate::fixed::{decay, decayed, magnitude, mul_wide, saturate, saturate_wide, scaled_mul, LIMIT};
use crate::input::FrameInput;
use crate::viewport::{ZOOM_DECAY, ZOOM_THRESHOLD};
use vstd::prelude::*;

verus! {

/// The model of a [`Spotlight`], and of a [`SpotlightKick`]: a radius
/// multiplier and the rate at which it changes.
pub struct SpotlightModel {
    pub multiplier: int,
    pub delta: int,
}

impl SpotlightModel {
    /// Both quantities are within the limit.
    pub open spec fn valid(self) -> bool {
        -LIMIT <= self.multiplier <= LIMIT && -LIMIT <= self.delta <= LIMIT
    }

    /// Whether the multiplier is still in motion.
    pub open spec fn animating(self) -> bool {
        magnitude(self.delta) > ZOOM_THRESHOLD
    }

    /// One frame of `dt` seconds: while in motion, the multiplier takes
    /// `delta * dt` and the delta decays.
    pub open spec fn integrate(self, dt: int) -> SpotlightModel {
        if self.animating() {
            SpotlightModel {
                multiplier: saturate(self.multiplier + scaled_mul(self.delta, dt)),
                delta: saturate(decayed(self.delta, dt, ZOOM_DECAY as int)),
            }
        } else {
            self
        }
    }

    /// One frame: a control key that went down restarts the motion from
    /// the kick, where there is one; then the motion is integrated.
    pub open spec fn step(self, input: FrameInput, kick: Option<SpotlightModel>)
        -> SpotlightModel {
        if input.ctrl_pressed && kick.is_some() {
            kick.unwrap().integrate(input.frame_time as int)
        } else {
            self.integrate(input.frame_time as int)
        }
    }
}

/// Where a kick puts the spotlight: a multiplier and a negative delta.
#[derive(Clone, Copy, Debug)]
pub struct SpotlightKick {
    multiplier: i64,
    delta: i64,
}

impl View for SpotlightKick {
    type V = SpotlightModel;

    closed spec fn view(&self) -> SpotlightModel {
        SpotlightModel { multiplier: self.multiplier as int, delta: self.delta as int }
    }
}

impl SpotlightKick {
    /// What holds of every value of the type.
    #[verifier::type_invariant]
    pub open spec fn inv(self) -> bool {
        self@.valid() && self@.delta < 0
    }

    /// The kick to `multiplier` with the rate `delta`, each saturated,
    /// where `delta` is negative, and nothing otherwise.
    pub fn new(multiplier: i64, delta: i64) -> (k: Option<SpotlightKick>)
        ensures
            k.is_some() <==> delta < 0,
            k matches Some(kick) ==> kick@ == (SpotlightModel {
                multiplier: saturate(multiplier as int),
                delta: saturate(delta as int),
            }) && kick@.valid(),
    {
        if delta < 0 {
            Some(
                SpotlightKick {
                    multiplier: saturate_wide(multiplier as i128),
                    delta: saturate_wide(delta as i128),
                },
            )
        } else {
            None
        }
    }
}

/// The radius multiplier of the spotlight and its rate of change.
#[derive(Clone, Copy, Debug)]
pub struct Spotlight {
    multiplier: i64,
    delta: i64,
}

impl View for Spotlight {
    type V = SpotlightModel;

    closed spec fn view(&self) -> SpotlightModel {
        SpotlightModel { multiplier: self.multiplier as int, delta: self.delta as int }
    }
}

impl Spotlight {
    /// What holds of every value of the type.
    #[verifier::type_invariant]
    pub open spec fn inv(self) -> bool {
        self@.valid()
    }

    /// The spotlight at rest at `multiplier`, saturated.
    pub fn new(multiplier: i64) -> (s: Spotlight)
        ensures
            s@ == (SpotlightModel { multiplier: saturate(multiplier as int), delta: 0 }),
            s@.valid(),
    {
        Spotlight { multiplier: saturate_wide(multiplier as i128), delta: 0 }
    }

    /// The radius multiplier.
    pub fn multiplier(&self) -> (m: i64)
        ensures
            m == self@.multiplier,
    {
        self.multiplier
    }

    /// The rate at which the multiplier changes.
    pub fn delta(&self) -> (d: i64)
        ensures
            d == self@.delta,
    {
        self.delta
    }

    /// One frame of `frame_time` seconds.
    pub fn integrate(self, frame_time: i64) -> (next: Spotlight)
        ensures
            next@ == self@.integrate(frame_time as int),
            next@.valid(),
    {
        proof {
            use_type_invariant(&self);
        }
        if self.delta > ZOOM_THRESHOLD || self.delta < -ZOOM_THRESHOLD {
            let gain: i128 = mul_wide(frame_time as i128, self.delta);
            assert(self.delta * frame_time == frame_time * self.delta) by (nonlinear_arith);
            Spotlight {
                multiplier: saturate_wide(self.multiplier as i128 + gain),
                delta: decay(self.delta, frame_time, ZOOM_DECAY),
            }
        } else {
            self
        }
    }

    /// One frame: a control key that went down restarts the motion from
    /// the kick, where there is one; then the motion is integrated.
    pub fn step(self, input: &FrameInput, kick: &Option<SpotlightKick>) -> (next: Spotlight)
        ensures
            next@ == self@.step(*input, kick_model(*kick)),
            next@.valid(),
    {
        match kick {
            Some(k) => {
                if input.ctrl_pressed {
                    proof {
                        use_type_invariant(k);
                    }
                    let kicked = Spotlight { multiplier: k.multiplier, delta: k.delta };
                    kicked.integrate(input.frame_time)
                } else {
                    self.integrate(input.frame_time)
                }
            },
            None => self.integrate(input.frame_time),
        }
    }
}

/// The model of a kick that may be there.
pub open spec fn kick_model(kick: Option<SpotlightKick>) -> Option<SpotlightModel> {
    match kick {
        Some(k) => Some(k@),
        None => None,
    }
}

} // verus!
