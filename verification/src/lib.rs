//! Frames of a cathode-ray display powering on or off, rendered from a still
//! picture and an animation level.

pub mod beam;
pub mod config;
pub mod error;
pub mod fade;
pub mod h_stretch;
pub mod plan;
pub mod raster;
pub mod resample;
pub mod scale_down;
pub mod settings;
pub mod scalar;
pub mod tables;
pub mod v_stretch;

pub use crate::raster::Channel;
pub use crate::raster::Pixel;
pub use crate::raster::Raster;
pub use crate::scalar::Scalar;
pub use crate::tables::AxisMap;
pub use crate::tables::ByteMap;
pub use crate::config::AnimationMode;
pub use crate::config::CliAnimationMode;
pub use crate::config::ElectronBeamConfig;
pub use crate::error::ElectronBeamError;
pub use crate::beam::ElectronBeam;
pub use crate::beam::ElectronBeamBuilder;
pub use crate::h_stretch::BeamLine;
pub use crate::plan::FramePlan;
pub use crate::plan::Phase;
pub use crate::v_stretch::ChannelStretch;
