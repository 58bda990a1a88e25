//! What is to be animated: the canvas, the mode and the two phase lengths.

use vstd::prelude::*;
use vstd::std_specs::convert::FromSpecImpl;
use crate::raster::holdable;
use crate::raster::Raster;
use crate::scalar::Scalar;

verus! {

/// The effect that an animation shows.
#[derive(Debug, Clone, Copy, PartialEq, Eq, Structural)]
pub enum AnimationMode {
    /// The beam warms up: the display turns on.
    WarmUp,
    /// The beam shuts off: the display turns off.
    CoolDown,
    /// The picture fades.
    Fade,
    /// The picture shrinks towards the centre.
    ScaleDown,
}

/// The modes in the order in which a command line offers them.
#[derive(Debug, Clone, Copy, PartialEq, Eq, Structural)]
pub enum CliAnimationMode {
    CoolDown,
    WarmUp,
    Fade,
    ScaleDown,
}

impl From<CliAnimationMode> for AnimationMode {
    fn from(mode: CliAnimationMode) -> (r: AnimationMode) {
        match mode {
            CliAnimationMode::CoolDown => AnimationMode::CoolDown,
            CliAnimationMode::WarmUp => AnimationMode::WarmUp,
            CliAnimationMode::Fade => AnimationMode::Fade,
            CliAnimationMode::ScaleDown => AnimationMode::ScaleDown,
        }
    }
}

impl FromSpecImpl<CliAnimationMode> for AnimationMode {
    open spec fn obeys_from_spec() -> bool {
        true
    }

    open spec fn from_spec(mode: CliAnimationMode) -> AnimationMode {
        match mode {
            CliAnimationMode::CoolDown => AnimationMode::CoolDown,
            CliAnimationMode::WarmUp => AnimationMode::WarmUp,
            CliAnimationMode::Fade => AnimationMode::Fade,
            CliAnimationMode::ScaleDown => AnimationMode::ScaleDown,
        }
    }
}

/// The settings of one animation.
#[derive(Debug, Clone, Copy, PartialEq, Eq)]
pub struct ElectronBeamConfig {
    /// Width of every frame, in pixels.
    pub width: u32,
    /// Height of every frame, in pixels.
    pub height: u32,
    /// The effect to show.
    pub mode: AnimationMode,
    /// The share of the level axis that the vertical stretch takes; it comes
    /// first.
    pub v_stretch_duration: Scalar,
    /// The share of the level axis that the horizontal stretch takes; it
    /// comes second.
    pub h_stretch_duration: Scalar,
}

impl ElectronBeamConfig {
    /// A canvas has at least one pixel and can be held in memory.
    pub open spec fn valid(&self) -> bool {
        &&& self.width > 0
        &&& self.height > 0
        &&& holdable(self.width as int, self.height as int)
    }

    /// 640 by 480, cooling down, each phase taking half of the level axis.
    pub open spec fn standard() -> ElectronBeamConfig {
        ElectronBeamConfig {
            width: 640,
            height: 480,
            mode: AnimationMode::CoolDown,
            v_stretch_duration: Scalar::spec_half(),
            h_stretch_duration: Scalar::spec_half(),
        }
    }

    /// Whether the settings describe a canvas that can be drawn on.
    pub fn is_valid(&self) -> (r: bool)
        ensures
            r == self.valid(),
    {
        self.width > 0 && self.height > 0 && Raster::can_hold(self.width, self.height)
    }
}

impl Default for ElectronBeamConfig {
    fn default() -> (r: ElectronBeamConfig)
        ensures
            r == ElectronBeamConfig::standard(),
            r.valid(),
    {
        ElectronBeamConfig {
            width: 640,
            height: 480,
            mode: AnimationMode::CoolDown,
            v_stretch_duration: Scalar::half(),
            h_stretch_duration: Scalar::half(),
        }
    }
}

} // verus!
