//! What a caller hands over for one frame.
//!
//! The level decides which effect a frame shows. The amounts that the effect
//! works with are eased along a sigmoid of the level, which takes real
//! arithmetic; a plan carries them already tabulated, so that drawing is
//! integer work from start to end.

use vstd::prelude::*;
use crate::config::AnimationMode;
use crate::config::ElectronBeamConfig;
use crate::h_stretch::BeamLine;
use crate::scalar::Scalar;
use crate::tables::ByteMap;
use crate::v_stretch::ChannelStretch;

verus! {

/// The effect that a frame shows.
#[derive(Clone, Copy, Debug, PartialEq, Eq, Structural)]
pub enum Phase {
    Fade,
    ScaleDown,
    VerticalStretch,
    HorizontalStretch,
}

/// The phase in which an animation with these settings is at `level`. The
/// beam modes show the vertical stretch while the level is below its share
/// of the level axis, and the horizontal stretch from there on.
pub open spec fn phase_at(config: ElectronBeamConfig, level: Scalar) -> Phase {
    match config.mode {
        AnimationMode::Fade => Phase::Fade,
        AnimationMode::ScaleDown => Phase::ScaleDown,
        AnimationMode::WarmUp | AnimationMode::CoolDown => if level.lt(config.v_stretch_duration) {
            Phase::VerticalStretch
        } else {
            Phase::HorizontalStretch
        },
    }
}

/// Computes `phase_at`.
pub fn select_phase(config: &ElectronBeamConfig, level: Scalar) -> (phase: Phase)
    ensures
        phase == phase_at(*config, level),
{
    match config.mode {
        AnimationMode::Fade => Phase::Fade,
        AnimationMode::ScaleDown => Phase::ScaleDown,
        AnimationMode::WarmUp | AnimationMode::CoolDown => if level.less_than(
            config.v_stretch_duration,
        ) {
            Phase::VerticalStretch
        } else {
            Phase::HorizontalStretch
        },
    }
}

/// The amounts of one frame, tabulated.
///
/// A caller fills a plan from the level. The renderer checks that the plan
/// was made for the phase and the canvas at hand, and draws what it says;
/// that the tables hold the eased amounts of the level is the caller's part.
#[derive(Clone, Debug, PartialEq, Eq)]
pub enum FramePlan {
    /// What the fade makes of each opacity: the opacity scaled by the level
    /// while warming up, and by what is left of the level otherwise.
    Fade { opacity: ByteMap },
    /// The size that the picture shrinks to, which is the canvas scaled by
    /// the eased level, and what the dimming makes of each colour value.
    ScaleDown { width: u32, height: u32, dim: ByteMap },
    /// Where each colour channel samples the source, each stretched by its
    /// own easing of the progress, and the amount by which the highlight of a
    /// cooling beam brightens the frame.
    VerticalStretch {
        red: ChannelStretch,
        green: ChannelStretch,
        blue: ChannelStretch,
        highlight: u8,
    },
    /// How far the horizontal stretch has come, and the line that is left of
    /// the picture there.
    HorizontalStretch { progress: Scalar, line: BeamLine },
}

impl FramePlan {
    /// The axis maps of the plan are well formed.
    pub open spec fn wf(&self) -> bool {
        match self {
            FramePlan::VerticalStretch { red, green, blue, .. } => {
                &&& red.columns.wf()
                &&& red.rows.wf()
                &&& green.columns.wf()
                &&& green.rows.wf()
                &&& blue.columns.wf()
                &&& blue.rows.wf()
            },
            _ => true,
        }
    }

    /// The phase that the plan was made for.
    pub open spec fn phase(&self) -> Phase {
        match self {
            FramePlan::Fade { .. } => Phase::Fade,
            FramePlan::ScaleDown { .. } => Phase::ScaleDown,
            FramePlan::VerticalStretch { .. } => Phase::VerticalStretch,
            FramePlan::HorizontalStretch { .. } => Phase::HorizontalStretch,
        }
    }

    /// Whether the plan was made for a canvas of this size: a shrunk picture
    /// is no larger than the canvas, and a stretch covers all of it.
    pub open spec fn fits(&self, width: int, height: int) -> bool {
        match self {
            FramePlan::Fade { .. } => true,
            FramePlan::ScaleDown { width: w, height: h, .. } => *w <= width && *h <= height,
            FramePlan::VerticalStretch { red, green, blue, .. } => {
                &&& red.fits(width, height)
                &&& green.fits(width, height)
                &&& blue.fits(width, height)
            },
            FramePlan::HorizontalStretch { .. } => true,
        }
    }

    /// Whether the plan can be drawn for these settings at `level`.
    pub open spec fn suits(&self, config: ElectronBeamConfig, level: Scalar) -> bool {
        &&& self.phase() == phase_at(config, level)
        &&& self.fits(config.width as int, config.height as int)
    }

    /// The phase that the plan was made for.
    pub fn kind(&self) -> (phase: Phase)
        ensures
            phase == self.phase(),
    {
        match self {
            FramePlan::Fade { .. } => Phase::Fade,
            FramePlan::ScaleDown { .. } => Phase::ScaleDown,
            FramePlan::VerticalStretch { .. } => Phase::VerticalStretch,
            FramePlan::HorizontalStretch { .. } => Phase::HorizontalStretch,
        }
    }

    /// Decides `suits`.
    pub fn is_suited(&self, config: &ElectronBeamConfig, level: Scalar) -> (r: bool)
        requires
            self.wf(),
        ensures
            r == self.suits(*config, level),
    {
        if self.kind() != select_phase(config, level) {
            return false;
        }
        match self {
            FramePlan::ScaleDown { width, height, .. } => {
                *width <= config.width && *height <= config.height
            },
            FramePlan::VerticalStretch { red, green, blue, .. } => {
                red.covers(config.width, config.height) && green.covers(
                    config.width,
                    config.height,
                ) && blue.covers(config.width, config.height)
            },
            _ => true,
        }
    }
}

} // verus!
