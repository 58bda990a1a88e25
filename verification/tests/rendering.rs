//! Frames drawn from real levels: the easing and the tables are computed
//! here, in binary32 arithmetic, and handed to the renderer.

use electron_beam::fade::draw_fade;
use electron_beam::scale_down::draw_scale_down;
use electron_beam::AnimationMode;
use electron_beam::AxisMap;
use electron_beam::BeamLine;
use electron_beam::ByteMap;
use electron_beam::ChannelStretch;
use electron_beam::ElectronBeam;
use electron_beam::ElectronBeamBuilder;
use electron_beam::ElectronBeamError;
use electron_beam::FramePlan;
use electron_beam::Phase;
use electron_beam::Pixel;
use electron_beam::Raster;
use electron_beam::Scalar;

fn scalar(value: f32) -> Scalar {
    Scalar::from_bits(value.to_bits())
}

fn number(value: Scalar) -> f32 {
    f32::from_bits(value.to_bits())
}

fn sigmoid(x: f32, s: f32) -> f32 {
    1.0 / (1.0 + (-x * s).exp())
}

fn scurve(value: f32, s: f32) -> f32 {
    let x = value - 0.5;
    let y = sigmoid(x, s) - 0.5;
    let v = sigmoid(0.5, s) - 0.5;
    y / v * 0.5 + 0.5
}

fn scale_table(factor: f32) -> ByteMap {
    ByteMap::new(std::array::from_fn(|value| (value as f32 * factor) as u8))
}

fn axis_map(extent: u32, stretched: f32) -> AxisMap {
    let offset = (extent as f32 - stretched) * 0.5;
    let mut entries = Vec::new();
    for i in 0..extent {
        let sampled = if stretched > 0.0 {
            ((i as f32 - offset) / stretched * extent as f32)
                .max(0.0)
                .min(extent as f32 - 1.0)
        } else {
            extent as f32 * 0.5
        };
        let inside = (i as f32) >= offset && (i as f32) < (offset + stretched);
        entries.push(if inside { Some(sampled as u32) } else { None });
    }
    AxisMap::new(entries).unwrap()
}

fn channel_stretch(width: u32, height: u32, factor: f32) -> ChannelStretch {
    ChannelStretch {
        columns: axis_map(width, width as f32 + width as f32 * factor),
        rows: axis_map(height, height as f32 - height as f32 * factor),
    }
}

fn beam_line(width: u32, progress: f32) -> BeamLine {
    let ag = scurve(progress, 8.0);
    let line_width = 2.0 * width as f32 * (1.0 - ag);
    let x_start = ((width as f32 - line_width) * 0.5) as u32;
    let intensity = 1.0 - ag * 0.75;
    BeamLine {
        x_start,
        x_end: (x_start as f32 + line_width) as u32,
        gray: (255.0 * intensity) as u8,
    }
}

fn h_stretch_plan(width: u32, progress: f32) -> FramePlan {
    FramePlan::HorizontalStretch {
        progress: scalar(progress),
        line: beam_line(width, progress),
    }
}

fn fade_plan(mode: AnimationMode, level: f32) -> FramePlan {
    let alpha = if mode == AnimationMode::WarmUp { level } else { 1.0 - level };
    FramePlan::Fade { opacity: scale_table(alpha) }
}

fn scale_down_plan(mode: AnimationMode, width: u32, height: u32, level: f32) -> FramePlan {
    let curved = scurve(level, 8.0);
    let scale = if mode == AnimationMode::WarmUp { curved } else { 1.0 - curved };
    let dim_factor = if mode == AnimationMode::WarmUp {
        scale
    } else {
        scale * (1.0 - curved * 0.5)
    };
    FramePlan::ScaleDown {
        width: (width as f32 * scale) as u32,
        height: (height as f32 * scale) as u32,
        dim: scale_table(dim_factor),
    }
}

fn v_stretch_plan_of(width: u32, height: u32, ar: f32, ag: f32, ab: f32) -> FramePlan {
    FramePlan::VerticalStretch {
        red: channel_stretch(width, height, ar),
        green: channel_stretch(width, height, ag),
        blue: channel_stretch(width, height, ab),
        highlight: (255.0 * ag) as u8,
    }
}

fn v_stretch_plan(width: u32, height: u32, progress: f32) -> FramePlan {
    v_stretch_plan_of(
        width,
        height,
        scurve(progress, 7.5),
        scurve(progress, 8.0),
        scurve(progress, 8.5),
    )
}

fn plan_frame(beam: &ElectronBeam, level: f32) -> Result<FramePlan, ElectronBeamError> {
    let config = *beam.config();
    let v = number(config.v_stretch_duration);
    let h = number(config.h_stretch_duration);
    Ok(match beam.phase(scalar(level))? {
        Phase::Fade => fade_plan(config.mode, level),
        Phase::ScaleDown => scale_down_plan(config.mode, config.width, config.height, level),
        Phase::VerticalStretch => v_stretch_plan(config.width, config.height, level / v),
        Phase::HorizontalStretch => h_stretch_plan(config.width, (level - v) / h),
    })
}

fn draw(beam: &ElectronBeam, level: f32) -> Result<Raster, ElectronBeamError> {
    let plan = plan_frame(beam, level)?;
    beam.draw(scalar(level), &plan)
}

fn generate_frames(
    beam: &ElectronBeam,
    frame_count: u32,
    reverse: bool,
) -> Result<Vec<Raster>, ElectronBeamError> {
    let mut frames = Vec::with_capacity(frame_count as usize);
    for i in 0..frame_count {
        let level = if reverse {
            1.0 - (i as f32 / (frame_count - 1) as f32)
        } else {
            i as f32 / (frame_count - 1) as f32
        };
        frames.push(draw(beam, level)?);
    }
    Ok(frames)
}

fn white(width: u32, height: u32) -> Raster {
    Raster::filled(width, height, Pixel::new(255, 255, 255, 255))
}

fn gradient(width: u32, height: u32) -> Raster {
    let mut picture = Raster::new(width, height);
    for y in 0..height {
        for x in 0..width {
            let p = Pixel::new(
                (x * 20 + 3) as u8,
                (y * 20 + 5) as u8,
                (x + y + 100) as u8,
                (x * 10 + y * 15 + 7) as u8,
            );
            picture.put_pixel(x, y, p);
        }
    }
    picture
}

fn prepared(mode: AnimationMode, width: u32, height: u32, image: Raster) -> ElectronBeam {
    let mut beam = ElectronBeamBuilder::new().dimensions(width, height).mode(mode).build();
    beam.prepare(image).unwrap();
    beam
}

const MODES: [AnimationMode; 4] = [
    AnimationMode::WarmUp,
    AnimationMode::CoolDown,
    AnimationMode::Fade,
    AnimationMode::ScaleDown,
];

#[test]
fn test_invalid_level() {
    let beam = ElectronBeamBuilder::new().build();
    let plan = h_stretch_plan(10, 1.0);

    assert!(beam.draw(scalar(-0.1), &plan).is_err());
    assert!(beam.draw(scalar(1.1), &plan).is_err());
    assert!(draw(&beam, -0.1).is_err());
    assert!(draw(&beam, 1.1).is_err());
}

#[test]
fn test_prepare_with_image() {
    let mut beam = ElectronBeamBuilder::new().dimensions(100, 100).build();

    let test_image = white(50, 50);

    assert!(beam.prepare(test_image).is_ok());
    assert!(beam.is_prepared());
}

#[test]
fn test_frame_generation() {
    let beam = ElectronBeamBuilder::new()
        .dimensions(10, 10)
        .mode(AnimationMode::CoolDown)
        .build();

    let test_image = white(10, 10);

    let mut beam = beam;
    beam.prepare(test_image).unwrap();

    let frames = generate_frames(&beam, 5, false).unwrap();
    assert_eq!(frames.len(), 5);

    for frame in &frames {
        assert_eq!(frame.width(), 10);
        assert_eq!(frame.height(), 10);
    }
}

#[test]
fn test_reverse_frame_generation() {
    let beam = ElectronBeamBuilder::new()
        .dimensions(10, 10)
        .mode(AnimationMode::CoolDown)
        .build();

    let test_image = white(10, 10);

    let mut beam = beam;
    beam.prepare(test_image).unwrap();

    let normal_frames = generate_frames(&beam, 3, false).unwrap();
    let reverse_frames = generate_frames(&beam, 3, true).unwrap();

    assert_eq!(normal_frames.len(), reverse_frames.len());
    assert_eq!(
        (normal_frames[0].width(), normal_frames[0].height()),
        (reverse_frames[2].width(), reverse_frames[2].height())
    );
    assert_eq!(normal_frames[0], reverse_frames[2]);
    assert_eq!(normal_frames[2], reverse_frames[0]);
}

#[test]
fn level_outside_unit_interval_is_rejected_in_every_mode() {
    for mode in MODES {
        let beam = prepared(mode, 10, 10, white(10, 10));
        assert_eq!(
            draw(&beam, -0.1),
            Err(ElectronBeamError::InvalidLevel(scalar(-0.1)))
        );
        assert_eq!(
            draw(&beam, 1.1),
            Err(ElectronBeamError::InvalidLevel(scalar(1.1)))
        );
        assert!(draw(&beam, 0.0).is_ok());
        assert!(draw(&beam, 1.0).is_ok());
    }
}

#[test]
fn rejection_of_a_level_does_not_look_at_the_plan() {
    let beam = prepared(AnimationMode::Fade, 4, 4, white(4, 4));
    let plans = [
        FramePlan::Fade { opacity: ByteMap::identity() },
        h_stretch_plan(10, 1.0),
        FramePlan::ScaleDown { width: 9, height: 9, dim: ByteMap::identity() },
    ];
    for plan in &plans {
        assert_eq!(
            beam.draw(scalar(1.5), plan),
            Err(ElectronBeamError::InvalidLevel(scalar(1.5)))
        );
    }
}

#[test]
fn draw_before_prepare_is_not_prepared() {
    for mode in MODES {
        let beam = ElectronBeamBuilder::new().dimensions(10, 10).mode(mode).build();
        for level in [0.0f32, 0.25, 0.5, 1.0, -0.1, 1.1] {
            assert_eq!(draw(&beam, level), Err(ElectronBeamError::NotPrepared));
            assert_eq!(
                beam.draw(scalar(level), &h_stretch_plan(10, 1.0)),
                Err(ElectronBeamError::NotPrepared)
            );
        }
    }
}

#[test]
fn reset_returns_to_not_prepared() {
    let mut beam = prepared(AnimationMode::Fade, 4, 4, white(4, 4));
    assert!(draw(&beam, 0.5).is_ok());
    beam.reset();
    assert!(!beam.is_prepared());
    assert_eq!(draw(&beam, 0.5), Err(ElectronBeamError::NotPrepared));
    assert_eq!(beam.config().width, 4);
}

#[test]
fn frames_have_the_size_of_the_canvas_whatever_the_source() {
    for mode in MODES {
        for (sw, sh) in [(50u32, 50u32), (7, 3), (12, 9), (1, 1), (30, 8)] {
            let beam = prepared(mode, 12, 9, gradient(sw, sh));
            for level in [0.0f32, 0.2, 0.5, 0.8, 1.0] {
                let frame = draw(&beam, level).unwrap();
                assert_eq!(frame.width(), 12);
                assert_eq!(frame.height(), 9);
                assert_eq!(frame.as_raw().len(), 4 * 12 * 9);
            }
        }
    }
}

#[test]
fn prepare_resamples_to_the_canvas() {
    let beam = prepared(AnimationMode::Fade, 100, 100, white(50, 50));
    let frame = beam
        .draw(scalar(0.0), &FramePlan::Fade { opacity: ByteMap::identity() })
        .unwrap();
    assert_eq!(frame.width(), 100);
    assert_eq!(frame.height(), 100);
    assert_eq!(frame, white(100, 100));
}

#[test]
fn prepare_keeps_a_source_of_the_right_size() {
    let picture = gradient(6, 5);
    let beam = prepared(AnimationMode::Fade, 6, 5, picture.clone());
    let frame = beam
        .draw(scalar(0.3), &FramePlan::Fade { opacity: ByteMap::identity() })
        .unwrap();
    assert_eq!(frame, picture);
}

#[test]
fn prepare_refuses_what_cannot_be_resampled() {
    let mut beam = ElectronBeamBuilder::new().dimensions(1, 2_000_000_000).build();
    let wide = Raster::from_raw(4_000_000_000, 0, Vec::new()).unwrap();
    let refused = beam.prepare(wide);
    assert_eq!(
        refused,
        Err(ElectronBeamError::ImageError(String::from("picture is too large to resample")))
    );
    assert!(!beam.is_prepared());
}

#[test]
fn fade_warming_up_goes_from_nothing_to_the_source() {
    let picture = gradient(6, 5);
    let at_zero = match fade_plan(AnimationMode::WarmUp, 0.0) {
        FramePlan::Fade { opacity } => draw_fade(&picture, &opacity),
        _ => unreachable!(),
    };
    let at_one = match fade_plan(AnimationMode::WarmUp, 1.0) {
        FramePlan::Fade { opacity } => draw_fade(&picture, &opacity),
        _ => unreachable!(),
    };
    for y in 0..5 {
        for x in 0..6 {
            let p = picture.get_pixel(x, y);
            assert_eq!(at_zero.get_pixel(x, y), Pixel::new(p.red, p.green, p.blue, 0));
            assert_eq!(at_one.get_pixel(x, y), p);
        }
    }
}

#[test]
fn fade_cooling_down_goes_from_the_source_to_nothing() {
    let picture = gradient(6, 5);
    let at_zero = match fade_plan(AnimationMode::CoolDown, 0.0) {
        FramePlan::Fade { opacity } => draw_fade(&picture, &opacity),
        _ => unreachable!(),
    };
    let at_one = match fade_plan(AnimationMode::CoolDown, 1.0) {
        FramePlan::Fade { opacity } => draw_fade(&picture, &opacity),
        _ => unreachable!(),
    };
    assert_eq!(at_zero, picture);
    for y in 0..5 {
        for x in 0..6 {
            let p = picture.get_pixel(x, y);
            assert_eq!(at_one.get_pixel(x, y), Pixel::new(p.red, p.green, p.blue, 0));
        }
    }
}

#[test]
fn fade_mode_halves_the_opacity_at_half_level() {
    let beam = prepared(AnimationMode::Fade, 2, 1, {
        let mut picture = Raster::new(2, 1);
        picture.put_pixel(0, 0, Pixel::new(10, 20, 30, 255));
        picture.put_pixel(1, 0, Pixel::new(40, 50, 60, 101));
        picture
    });
    let frame = draw(&beam, 0.5).unwrap();
    assert_eq!(frame.get_pixel(0, 0), Pixel::new(10, 20, 30, 127));
    assert_eq!(frame.get_pixel(1, 0), Pixel::new(40, 50, 60, 50));
}

#[test]
fn cooling_beam_scenario() {
    let beam = prepared(AnimationMode::CoolDown, 10, 10, white(10, 10));

    assert_eq!(beam.phase(scalar(0.0)), Ok(Phase::VerticalStretch));
    let unstretched = v_stretch_plan_of(10, 10, 0.0, 0.0, 0.0);
    let first = beam.draw(scalar(0.0), &unstretched).unwrap();
    assert_eq!(first, white(10, 10));

    let last = draw(&beam, 1.0).unwrap();
    assert_eq!(last, Raster::filled(10, 10, Pixel::new(0, 0, 0, 255)));

    assert_eq!(beam.phase(scalar(0.5)), Ok(Phase::HorizontalStretch));
    let boundary = draw(&beam, 0.5).unwrap();
    for y in 0..10 {
        for x in 0..10 {
            let expected = if (4..=6).contains(&y) {
                Pixel::new(255, 255, 255, 255)
            } else {
                Pixel::new(0, 0, 0, 255)
            };
            assert_eq!(boundary.get_pixel(x, y), expected);
        }
    }
}

#[test]
fn vertical_phase_is_skipped_when_it_has_no_share() {
    let mut beam = ElectronBeamBuilder::new()
        .dimensions(10, 10)
        .mode(AnimationMode::WarmUp)
        .stretch_durations(scalar(0.0), scalar(1.0))
        .build();
    beam.prepare(white(10, 10)).unwrap();
    assert_eq!(beam.phase(scalar(0.0)), Ok(Phase::HorizontalStretch));
    assert_eq!(beam.phase(scalar(1.0)), Ok(Phase::HorizontalStretch));
}

#[test]
fn phase_follows_the_mode_and_the_level() {
    let warm = prepared(AnimationMode::WarmUp, 4, 4, white(4, 4));
    assert_eq!(warm.phase(scalar(0.0)), Ok(Phase::VerticalStretch));
    assert_eq!(warm.phase(scalar(0.49)), Ok(Phase::VerticalStretch));
    assert_eq!(warm.phase(scalar(0.5)), Ok(Phase::HorizontalStretch));
    assert_eq!(warm.phase(scalar(1.0)), Ok(Phase::HorizontalStretch));
    assert_eq!(warm.phase(scalar(f32::NAN)), Ok(Phase::HorizontalStretch));
    let fade = prepared(AnimationMode::Fade, 4, 4, white(4, 4));
    assert_eq!(fade.phase(scalar(0.2)), Ok(Phase::Fade));
    let scale = prepared(AnimationMode::ScaleDown, 4, 4, white(4, 4));
    assert_eq!(scale.phase(scalar(0.9)), Ok(Phase::ScaleDown));
}

#[test]
fn horizontal_line_at_half_progress() {
    assert_eq!(
        beam_line(10, 0.5),
        BeamLine { x_start: 0, x_end: 10, gray: 159 }
    );
    assert_eq!(
        beam_line(10, 1.0),
        BeamLine { x_start: 5, x_end: 5, gray: 63 }
    );

    let beam = prepared(AnimationMode::CoolDown, 10, 7, white(10, 7));
    let frame = draw(&beam, 0.875).unwrap();
    let line = beam_line(10, 0.75);
    assert!(line.x_start > 0 && line.x_end < 10 && line.x_start < line.x_end);
    for y in 0..7 {
        for x in 0..10 {
            let lit = x >= line.x_start && x < line.x_end && (2..=4).contains(&y);
            let expected = if lit {
                Pixel::new(line.gray, line.gray, line.gray, 255)
            } else {
                Pixel::new(0, 0, 0, 255)
            };
            assert_eq!(frame.get_pixel(x, y), expected);
        }
    }
}

#[test]
fn vertical_stretch_squeezes_towards_the_middle_row() {
    let picture = gradient(8, 8);
    let beam = prepared(AnimationMode::WarmUp, 8, 8, picture.clone());
    let frame = draw(&beam, 0.4).unwrap();
    let plan = plan_frame(&beam, 0.4).unwrap();
    let (red, green, blue) = match &plan {
        FramePlan::VerticalStretch { red, green, blue, .. } => (red, green, blue),
        _ => unreachable!(),
    };
    let mut clear_rows = 0;
    for y in 0..8 {
        for x in 0..8 {
            let sample = |stretch: &ChannelStretch| {
                match (stretch.columns.get(x), stretch.rows.get(y)) {
                    (Some(sx), Some(sy)) => Some(picture.get_pixel(sx, sy)),
                    _ => None,
                }
            };
            let (r, g, b) = (sample(red), sample(green), sample(blue));
            let expected = Pixel::new(
                r.map_or(0, |p| p.red),
                g.map_or(0, |p| p.green),
                b.map_or(0, |p| p.blue),
                if r.is_some() || g.is_some() || b.is_some() { 255 } else { 0 },
            );
            assert_eq!(frame.get_pixel(x, y), expected);
        }
        if frame.get_pixel(0, y) == Pixel::new(0, 0, 0, 0) {
            clear_rows += 1;
        }
    }
    assert!(clear_rows >= 2);
    assert_eq!(frame.get_pixel(0, 0), Pixel::new(0, 0, 0, 0));
    assert_eq!(frame.get_pixel(0, 7), Pixel::new(0, 0, 0, 0));
    assert_eq!(frame.get_pixel(3, 4).alpha, 255);
}

#[test]
fn cooling_stretch_is_brightened_and_never_overflows() {
    let beam = prepared(AnimationMode::CoolDown, 8, 8, white(8, 8));
    let frame = draw(&beam, 0.25).unwrap();
    let highlight = (255.0 * scurve(0.5, 8.0)) as u8;
    assert_eq!(highlight, 127);
    assert_eq!(frame.get_pixel(4, 4), Pixel::new(255, 255, 255, 255));
    assert_eq!(frame.get_pixel(0, 0), Pixel::new(127, 127, 127, 0));

    let warm = prepared(AnimationMode::WarmUp, 8, 8, white(8, 8));
    let plain = draw(&warm, 0.25).unwrap();
    assert_eq!(plain.get_pixel(4, 4), Pixel::new(255, 255, 255, 255));
    assert_eq!(plain.get_pixel(0, 0), Pixel::new(0, 0, 0, 0));
}

#[test]
fn scale_down_warming_up_at_full_level_is_the_source() {
    let picture = gradient(9, 6);
    let (width, height, dim) = match scale_down_plan(AnimationMode::WarmUp, 9, 6, 1.0) {
        FramePlan::ScaleDown { width, height, dim } => (width, height, dim),
        _ => unreachable!(),
    };
    assert_eq!((width, height), (9, 6));
    assert_eq!(dim, ByteMap::identity());
    assert_eq!(draw_scale_down(&picture, width, height, &dim), picture);
}

#[test]
fn scale_down_mode_ends_in_black() {
    let beam = prepared(AnimationMode::ScaleDown, 9, 6, gradient(9, 6));
    let last = draw(&beam, 1.0).unwrap();
    assert_eq!(last, Raster::filled(9, 6, Pixel::new(0, 0, 0, 255)));
}

#[test]
fn scale_down_mode_centres_a_dimmed_copy() {
    let beam = prepared(AnimationMode::ScaleDown, 10, 10, white(10, 10));
    let frame = draw(&beam, 0.5).unwrap();
    let inside = Pixel::new(95, 95, 95, 255);
    assert_eq!((255.0f32 * (0.5 * 0.75)) as u8, 95);
    for y in 0..10 {
        for x in 0..10 {
            let shown = (2..7).contains(&x) && (2..7).contains(&y);
            let expected = if shown { inside } else { Pixel::new(0, 0, 0, 255) };
            assert_eq!(frame.get_pixel(x, y), expected);
        }
    }
}

#[test]
fn plan_for_another_phase_is_refused() {
    let beam = prepared(AnimationMode::CoolDown, 10, 10, white(10, 10));
    let mismatch = Err(ElectronBeamError::InvalidMode(String::from(
        "frame plan does not suit the animation at this level",
    )));
    assert_eq!(
        beam.draw(scalar(0.7), &FramePlan::Fade { opacity: ByteMap::identity() }),
        mismatch
    );
    assert_eq!(beam.draw(scalar(0.7), &v_stretch_plan(10, 10, 0.4)), mismatch);
    assert_eq!(
        beam.draw(scalar(0.2), &h_stretch_plan(10, 1.0)),
        mismatch
    );
    assert_eq!(beam.draw(scalar(0.2), &v_stretch_plan(10, 9, 0.4)), mismatch);
    assert!(beam.draw(scalar(0.2), &v_stretch_plan(10, 10, 0.4)).is_ok());

    let shrinking = prepared(AnimationMode::ScaleDown, 10, 10, white(10, 10));
    assert_eq!(
        shrinking.draw(
            scalar(0.2),
            &FramePlan::ScaleDown { width: 11, height: 3, dim: ByteMap::identity() }
        ),
        mismatch
    );
}

#[test]
fn drawing_changes_neither_settings_nor_source() {
    let picture = gradient(6, 5);
    let beam = prepared(AnimationMode::WarmUp, 6, 5, picture.clone());
    let before = *beam.config();
    let once = draw(&beam, 0.3).unwrap();
    let _ = draw(&beam, 0.9).unwrap();
    let again = draw(&beam, 0.3).unwrap();
    assert_eq!(once, again);
    assert_eq!(*beam.config(), before);
    assert!(beam.is_prepared());
}
