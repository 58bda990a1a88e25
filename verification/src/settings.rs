//! Checking the settings of a run before anything is rendered.

use vstd::prelude::*;
use crate::scalar::Scalar;

verus! {

/// What is wrong with the settings of a run.
#[derive(Clone, Copy, Debug, PartialEq, Eq, Structural)]
pub enum SettingsError {
    /// No frame was asked for.
    NoFrames,
    /// A frame would be shown for no time at all.
    NoDuration,
    /// The share of the vertical stretch lies below zero or above one.
    VerticalStretchOutOfRange,
    /// The share of the horizontal stretch lies below zero or above one.
    HorizontalStretchOutOfRange,
}

impl SettingsError {
    /// The complaint in words.
    pub open spec fn text(self) -> Seq<char> {
        match self {
            SettingsError::NoFrames => "Frame count must be greater than 0"@,
            SettingsError::NoDuration => "Frame duration must be greater than 0"@,
            SettingsError::VerticalStretchOutOfRange =>
                "Vertical stretch duration must be between 0.0 and 1.0"@,
            SettingsError::HorizontalStretchOutOfRange =>
                "Horizontal stretch duration must be between 0.0 and 1.0"@,
        }
    }

    /// The complaint in words.
    pub fn message(&self) -> (r: String)
        ensures
            r@ == self.text(),
    {
        match self {
            SettingsError::NoFrames => "Frame count must be greater than 0".to_owned(),
            SettingsError::NoDuration => "Frame duration must be greater than 0".to_owned(),
            SettingsError::VerticalStretchOutOfRange =>
                "Vertical stretch duration must be between 0.0 and 1.0".to_owned(),
            SettingsError::HorizontalStretchOutOfRange =>
                "Horizontal stretch duration must be between 0.0 and 1.0".to_owned(),
        }
    }
}

/// The first complaint about the settings, if there is any: the number of
/// frames is looked at first, then the time each frame is shown, then the
/// share of the vertical stretch, then that of the horizontal stretch.
pub open spec fn first_complaint(
    frames: u32,
    duration: u16,
    v_stretch: Scalar,
    h_stretch: Scalar,
) -> Option<SettingsError> {
    if frames == 0 {
        Some(SettingsError::NoFrames)
    } else if duration == 0 {
        Some(SettingsError::NoDuration)
    } else if v_stretch.outside_unit() {
        Some(SettingsError::VerticalStretchOutOfRange)
    } else if h_stretch.outside_unit() {
        Some(SettingsError::HorizontalStretchOutOfRange)
    } else {
        None
    }
}

/// Accepts the settings of a run, or names the first thing wrong with them.
pub fn validate_arguments(frames: u32, duration: u16, v_stretch: Scalar, h_stretch: Scalar) -> (r:
    Result<(), SettingsError>)
    ensures
        match r {
            Ok(()) => first_complaint(frames, duration, v_stretch, h_stretch) is None,
            Err(e) => first_complaint(frames, duration, v_stretch, h_stretch) == Some(e),
        },
{
    if frames == 0 {
        return Err(SettingsError::NoFrames);
    }
    if duration == 0 {
        return Err(SettingsError::NoDuration);
    }
    if v_stretch.is_outside_unit() {
        return Err(SettingsError::VerticalStretchOutOfRange);
    }
    if h_stretch.is_outside_unit() {
        return Err(SettingsError::HorizontalStretchOutOfRange);
    }
    Ok(())
}

} // verus!
