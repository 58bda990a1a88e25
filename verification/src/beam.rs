//! The renderer: settings, a prepared source, and one frame per call.

use vstd::prelude::*;
use crate::config::AnimationMode;
use crate::config::ElectronBeamConfig;
use crate::error::ElectronBeamError;
use crate::fade::draw_fade;
use crate::fade::shows_faded;
use crate::h_stretch::draw_h_stretch;
use crate::h_stretch::line_at;
use crate::h_stretch::shows_h_stretch;
use crate::plan::select_phase;
use crate::plan::FramePlan;
use crate::plan::Phase;
use crate::raster::Raster;
use crate::resample::can_resample;
use crate::resample::resample;
use crate::resample::resampling_fits;
use crate::scalar::Scalar;
use crate::scale_down::draw_scale_down;
use crate::scale_down::shows_scale_down;
use crate::v_stretch::draw_v_stretch;
use crate::v_stretch::shows_v_stretch;

verus! {

/// What `draw` says when the plan was made for another phase or another
/// canvas.
pub open spec fn plan_mismatch() -> Seq<char> {
    "frame plan does not suit the animation at this level"@
}

/// What `prepare` and `draw` say when a picture is too large to resample.
pub open spec fn resampling_overflow() -> Seq<char> {
    "picture is too large to resample"@
}

/// The highlight that a vertical stretch gets: a cooling beam is brightened
/// by the planned amount, a warming one is not.
pub open spec fn highlight_for(mode: AnimationMode, amount: u8) -> Option<u8> {
    if mode == AnimationMode::CoolDown {
        Some(amount)
    } else {
        None
    }
}

/// Whether a plan asks the resampler for more than it can hold, on a source
/// of the given width.
pub open spec fn overflows_resampler(plan: &FramePlan, source_width: int) -> bool {
    plan matches FramePlan::ScaleDown { width, height, .. } && width > 0 && height > 0
        && !resampling_fits(source_width, width as int, height as int)
}

/// Whether `frame` is what `plan` draws from `source` in the given mode.
pub open spec fn renders(
    frame: &Raster,
    source: &Raster,
    mode: AnimationMode,
    plan: &FramePlan,
) -> bool {
    match plan {
        FramePlan::Fade { opacity } => shows_faded(frame, source, opacity),
        FramePlan::ScaleDown { width, height, dim } => shows_scale_down(
            frame,
            source,
            *width as int,
            *height as int,
            dim,
        ),
        FramePlan::VerticalStretch { red, green, blue, highlight } => shows_v_stretch(
            frame,
            source,
            red,
            green,
            blue,
            highlight_for(mode, *highlight),
        ),
        FramePlan::HorizontalStretch { progress, line } => shows_h_stretch(
            frame,
            source.spec_width() as int,
            source.spec_height() as int,
            line_at(*progress, *line),
        ),
    }
}

/// Renders the frames of one animation from one source picture.
pub struct ElectronBeam {
    config: ElectronBeamConfig,
    source: Option<Raster>,
}

impl ElectronBeam {
    /// The settings.
    pub closed spec fn spec_config(&self) -> ElectronBeamConfig {
        self.config
    }

    /// The prepared source, if there is one.
    pub closed spec fn source(&self) -> Option<Raster> {
        self.source
    }

    /// Whether a source has been prepared.
    pub open spec fn prepared(&self) -> bool {
        self.source().is_some()
    }

    /// The settings are valid, and a prepared source has the size of the
    /// canvas.
    pub open spec fn wf(&self) -> bool {
        &&& self.spec_config().valid()
        &&& self.source() matches Some(picture) ==> {
            &&& picture.wf()
            &&& picture.spec_width() == self.spec_config().width
            &&& picture.spec_height() == self.spec_config().height
        }
    }

    /// A renderer with these settings and no source.
    pub fn new(config: ElectronBeamConfig) -> (beam: ElectronBeam)
        requires
            config.valid(),
        ensures
            beam.wf(),
            beam.spec_config() == config,
            !beam.prepared(),
    {
        ElectronBeam { config, source: None }
    }

    /// Takes `image` as the source of the animation, resampled to the size of
    /// the canvas unless it has that size already.
    ///
    /// Fails only where the picture has to be resampled and is too large for
    /// that; the renderer is then left as it was.
    pub fn prepare(&mut self, image: Raster) -> (r: Result<(), ElectronBeamError>)
        requires
            old(self).wf(),
            image.wf(),
        ensures
            final(self).wf(),
            final(self).spec_config() == old(self).spec_config(),
            match r {
                Ok(()) => {
                    &&& final(self).prepared()
                    &&& if image.spec_width() == old(self).spec_config().width
                        && image.spec_height() == old(self).spec_config().height {
                        final(self).source() == Some(image)
                    } else {
                        resampling_fits(
                            image.spec_width() as int,
                            old(self).spec_config().width as int,
                            old(self).spec_config().height as int,
                        )
                    }
                },
                Err(e) => {
                    &&& e matches ElectronBeamError::ImageError(reason)
                    &&& reason@ == resampling_overflow()
                    &&& !(image.spec_width() == old(self).spec_config().width
                        && image.spec_height() == old(self).spec_config().height)
                    &&& !resampling_fits(
                        image.spec_width() as int,
                        old(self).spec_config().width as int,
                        old(self).spec_config().height as int,
                    )
                    &&& final(self).source() == old(self).source()
                },
            },
    {
        if image.width() == self.config.width && image.height() == self.config.height {
            self.source = Some(image);
            Ok(())
        } else if can_resample(image.width(), self.config.width, self.config.height) {
            let resized = resample(&image, self.config.width, self.config.height);
            self.source = Some(resized);
            Ok(())
        } else {
            Err(ElectronBeamError::ImageError("picture is too large to resample".to_owned()))
        }
    }

    /// The phase that a frame at `level` shows.
    ///
    /// Fails with `NotPrepared` while there is no source, whatever the level,
    /// and otherwise with `InvalidLevel` where the level is below zero or
    /// above one.
    pub fn phase(&self, level: Scalar) -> (r: Result<Phase, ElectronBeamError>)
        ensures
            match r {
                Ok(phase) => {
                    &&& self.prepared()
                    &&& !level.outside_unit()
                    &&& phase == crate::plan::phase_at(self.spec_config(), level)
                },
                Err(ElectronBeamError::NotPrepared) => !self.prepared(),
                Err(ElectronBeamError::InvalidLevel(rejected)) => {
                    &&& self.prepared()
                    &&& level.outside_unit()
                    &&& rejected == level
                },
                Err(_) => false,
            },
    {
        if self.source.is_none() {
            return Err(ElectronBeamError::NotPrepared);
        }
        if level.is_outside_unit() {
            return Err(ElectronBeamError::InvalidLevel(level));
        }
        Ok(select_phase(&self.config, level))
    }

    /// Draws the frame at `level` on a fresh canvas.
    ///
    /// The plan carries the amounts of that frame; the mode and the level
    /// decide which effect is drawn with them. Fails with `NotPrepared` while
    /// there is no source, whatever the level; then with `InvalidLevel` where
    /// the level is below zero or above one; then with `InvalidMode` where the
    /// plan was made for another phase or another canvas; and with
    /// `ImageError` where the picture would have to be resampled and is too
    /// large for that. Neither the settings nor the source change.
    pub fn draw(&self, level: Scalar, plan: &FramePlan) -> (r: Result<Raster, ElectronBeamError>)
        requires
            self.wf(),
            plan.wf(),
        ensures
            match r {
                Ok(frame) => {
                    &&& self.prepared()
                    &&& !level.outside_unit()
                    &&& plan.suits(self.spec_config(), level)
                    &&& !overflows_resampler(plan, self.spec_config().width as int)
                    &&& frame.wf()
                    &&& frame.spec_width() == self.spec_config().width
                    &&& frame.spec_height() == self.spec_config().height
                    &&& renders(&frame, &self.source().unwrap(), self.spec_config().mode, plan)
                },
                Err(ElectronBeamError::NotPrepared) => !self.prepared(),
                Err(ElectronBeamError::InvalidLevel(rejected)) => {
                    &&& self.prepared()
                    &&& level.outside_unit()
                    &&& rejected == level
                },
                Err(ElectronBeamError::InvalidMode(reason)) => {
                    &&& self.prepared()
                    &&& !level.outside_unit()
                    &&& !plan.suits(self.spec_config(), level)
                    &&& reason@ == plan_mismatch()
                },
                Err(ElectronBeamError::ImageError(reason)) => {
                    &&& self.prepared()
                    &&& !level.outside_unit()
                    &&& plan.suits(self.spec_config(), level)
                    &&& overflows_resampler(plan, self.spec_config().width as int)
                    &&& reason@ == resampling_overflow()
                },
            },
    {
        let source = match &self.source {
            Some(picture) => picture,
            None => {
                return Err(ElectronBeamError::NotPrepared);
            },
        };
        if level.is_outside_unit() {
            return Err(ElectronBeamError::InvalidLevel(level));
        }
        if !plan.is_suited(&self.config, level) {
            return Err(
                ElectronBeamError::InvalidMode(
                    "frame plan does not suit the animation at this level".to_owned(),
                ),
            );
        }
        match plan {
            FramePlan::Fade { opacity } => Ok(draw_fade(source, opacity)),
            FramePlan::ScaleDown { width, height, dim } => {
                if *width > 0 && *height > 0 && !can_resample(self.config.width, *width, *height) {
                    return Err(
                        ElectronBeamError::ImageError(
                            "picture is too large to resample".to_owned(),
                        ),
                    );
                }
                Ok(draw_scale_down(source, *width, *height, dim))
            },
            FramePlan::VerticalStretch { red, green, blue, highlight } => {
                let lift = if self.config.mode == AnimationMode::CoolDown {
                    Some(*highlight)
                } else {
                    None
                };
                Ok(draw_v_stretch(source, red, green, blue, lift))
            },
            FramePlan::HorizontalStretch { progress, line } => Ok(
                draw_h_stretch(self.config.width, self.config.height, *progress, *line),
            ),
        }
    }

    /// The settings.
    pub fn config(&self) -> (config: &ElectronBeamConfig)
        ensures
            *config == self.spec_config(),
    {
        &self.config
    }

    /// Whether a source has been prepared.
    pub fn is_prepared(&self) -> (r: bool)
        ensures
            r == self.prepared(),
    {
        self.source.is_some()
    }

    /// Forgets the source.
    pub fn reset(&mut self)
        ensures
            final(self).spec_config() == old(self).spec_config(),
            !final(self).prepared(),
            old(self).wf() ==> final(self).wf(),
    {
        self.source = None;
    }
}

/// Assembles the settings of a renderer step by step.
pub struct ElectronBeamBuilder {
    config: ElectronBeamConfig,
}

impl ElectronBeamBuilder {
    /// The settings assembled so far.
    pub closed spec fn spec_config(&self) -> ElectronBeamConfig {
        self.config
    }

    /// Starts from the standard settings.
    pub fn new() -> (builder: ElectronBeamBuilder)
        ensures
            builder.spec_config() == ElectronBeamConfig::standard(),
    {
        ElectronBeamBuilder { config: ElectronBeamConfig::default() }
    }

    /// Sets the size of the canvas.
    pub fn dimensions(self, width: u32, height: u32) -> (builder: ElectronBeamBuilder)
        ensures
            builder.spec_config() == (ElectronBeamConfig { width, height, ..self.spec_config() }),
    {
        let mut builder = self;
        builder.config.width = width;
        builder.config.height = height;
        builder
    }

    /// Sets the mode.
    pub fn mode(self, mode: AnimationMode) -> (builder: ElectronBeamBuilder)
        ensures
            builder.spec_config() == (ElectronBeamConfig { mode, ..self.spec_config() }),
    {
        let mut builder = self;
        builder.config.mode = mode;
        builder
    }

    /// Sets the shares of the level axis that the two stretches take.
    pub fn stretch_durations(self, v_duration: Scalar, h_duration: Scalar) -> (builder:
        ElectronBeamBuilder)
        ensures
            builder.spec_config() == (ElectronBeamConfig {
                v_stretch_duration: v_duration,
                h_stretch_duration: h_duration,
                ..self.spec_config()
            }),
    {
        let mut builder = self;
        builder.config.v_stretch_duration = v_duration;
        builder.config.h_stretch_duration = h_duration;
        builder
    }

    /// Whether `build` can make a renderer of the settings.
    pub fn is_valid(&self) -> (r: bool)
        ensures
            r == self.spec_config().valid(),
    {
        self.config.is_valid()
    }

    /// The renderer with the assembled settings.
    pub fn build(self) -> (beam: ElectronBeam)
        requires
            self.spec_config().valid(),
        ensures
            beam.wf(),
            beam.spec_config() == self.spec_config(),
            !beam.prepared(),
    {
        ElectronBeam::new(self.config)
    }
}

impl Default for ElectronBeamBuilder {
    fn default() -> (builder: ElectronBeamBuilder)
        ensures
            builder.spec_config() == ElectronBeamConfig::standard(),
    {
        ElectronBeamBuilder::new()
    }
}

} // verus!
