use lightsync::domain::config::{
    Brightness, EntertainmentChannel, Intensity, NormalizedPoint, SyncMode,
};
use lightsync::engine::frame::{FrameError, FrameView, PixelFormat, Rgb8, SampleWindow};
use lightsync::engine::preset::{PipelinePreset, ProcessorError};
use lightsync::engine::processor::{ChannelColor, ColorProcessor, LinearRgb, Rgb16};

fn point(x: f32, y: f32) -> NormalizedPoint {
    NormalizedPoint::new(x.to_bits(), y.to_bits()).expect("valid point")
}

fn channel(id: u16, x: f32, y: f32) -> EntertainmentChannel {
    EntertainmentChannel {
        id,
        name: None,
        position: point(x, y),
    }
}

fn immediate(radius: u32) -> PipelinePreset {
    PipelinePreset {
        exposure: 0.0_f32.to_bits(),
        black_cutoff: 0.0_f32.to_bits(),
        sample_radius: radius,
        attack: 1.0_f32.to_bits(),
        release: 1.0_f32.to_bits(),
    }
}

fn to_linear(value: u8) -> f32 {
    let value = f32::from(value) / 255.0;
    if value <= 0.04045 {
        value / 12.92
    } else {
        ((value + 0.055) / 1.055).powf(2.4)
    }
}

fn to_rgb16(value: f32) -> u16 {
    let value = value.clamp(0.0, 1.0);
    let srgb = if value <= 0.003_130_8 {
        value * 12.92
    } else {
        1.055 * value.powf(1.0 / 2.4) - 0.055
    };
    (srgb * f32::from(u16::MAX)).round() as u16
}

fn sample(frame: &FrameView<'_>, position: NormalizedPoint, radius: u32) -> [f32; 3] {
    let x = (f32::from_bits(position.x()) * (frame.width() - 1) as f32).round() as usize;
    let y = (f32::from_bits(position.y()) * (frame.height() - 1) as f32).round() as usize;
    let samples = frame.samples(x, y, radius);
    let mut total = [0.0_f32; 3];
    for pixel in &samples {
        total[0] += to_linear(pixel.red);
        total[1] += to_linear(pixel.green);
        total[2] += to_linear(pixel.blue);
    }
    total.map(|sum| sum / samples.len() as f32)
}

fn linear(parts: [u32; 3]) -> LinearRgb {
    LinearRgb {
        red: parts[0],
        green: parts[1],
        blue: parts[2],
    }
}

fn linear_light(parts: [f32; 3]) -> LinearRgb {
    linear(parts.map(f32::to_bits))
}

fn process(
    processor: &mut ColorProcessor,
    frame: &FrameView<'_>,
    preset: PipelinePreset,
    brightness: u8,
) -> Vec<ChannelColor> {
    let preset = preset.validate().expect("preset");
    let brightness = Brightness::new(brightness).expect("brightness");
    let gain = 2.0_f32.powf(f32::from_bits(preset.exposure)) * f32::from(brightness.get()) / 100.0;
    let mut smoothed = Vec::new();
    let mut colors = Vec::new();
    let starts = processor.starting_colors();
    for (channel, start) in processor.channels().iter().zip(&starts) {
        let exposed = sample(frame, channel.position, preset.sample_radius)
            .map(|part| (part * gain).to_bits());
        let target = preset.target(linear(exposed));
        let steps = preset.coefficients(*start, target);
        let smooth = |start: u32, target: u32, step: u32| {
            let start = f32::from_bits(start);
            start + (f32::from_bits(target) - start) * f32::from_bits(step)
        };
        let (red, green, blue) = (
            smooth(start.red, target.red, steps.red),
            smooth(start.green, target.green, steps.green),
            smooth(start.blue, target.blue, steps.blue),
        );
        smoothed.push(LinearRgb {
            red: red.to_bits(),
            green: green.to_bits(),
            blue: blue.to_bits(),
        });
        colors.push(Rgb16 {
            red: to_rgb16(red),
            green: to_rgb16(green),
            blue: to_rgb16(blue),
        });
    }
    processor
        .process_with_preset(preset, &smoothed, &colors)
        .expect("process")
}

#[test]
fn reads_rgb_and_bgr_four_channel_formats() {
    let rgb = [255, 128, 0, 7];
    let bgr = [0, 128, 255, 7];
    for format in [PixelFormat::Rgba8, PixelFormat::Rgbx8] {
        let frame = FrameView::new(&rgb, 1, 1, 4, format).expect("RGB frame");
        let color = sample(&frame, point(0.0, 0.0), 0);
        assert_eq!(color[0], 1.0);
        assert_eq!(color[2], 0.0);
    }
    for format in [PixelFormat::Bgra8, PixelFormat::Bgrx8] {
        let frame = FrameView::new(&bgr, 1, 1, 4, format).expect("BGR frame");
        let color = sample(&frame, point(0.0, 0.0), 0);
        assert_eq!(color[0], 1.0);
        assert_eq!(color[2], 0.0);
    }
}

#[test]
fn validates_stride_buffer_and_edge_sampling() {
    assert!(matches!(
        FrameView::new(&[0; 8], 2, 1, 7, PixelFormat::Rgba8),
        Err(FrameError::StrideTooSmall { .. })
    ));
    assert!(matches!(
        FrameView::new(&[0; 11], 1, 2, 8, PixelFormat::Rgba8),
        Err(FrameError::BufferTooSmall { .. })
    ));
    let pixels = [0, 0, 0, 0, 255, 255, 255, 0];
    let frame = FrameView::new(&pixels, 2, 1, 8, PixelFormat::Rgba8).expect("frame");
    assert_eq!(sample(&frame, point(1.0, 1.0), 99), [0.5, 0.5, 0.5]);
}

#[test]
fn brightness_is_applied_in_linear_light() {
    let pixel = [255, 255, 255, 0];
    let frame = FrameView::new(&pixel, 1, 1, 4, PixelFormat::Rgba8).expect("frame");
    let mut processor = ColorProcessor::new(vec![channel(1, 0.0, 0.0)]).expect("processor");
    let colors = process(&mut processor, &frame, immediate(0), 50);
    assert!((48_150..=48_250).contains(&colors[0].color.red));
}

#[test]
fn black_cutoff_suppresses_dark_samples() {
    let pixel = [20, 20, 20, 0];
    let frame = FrameView::new(&pixel, 1, 1, 4, PixelFormat::Rgba8).expect("frame");
    let mut processor = ColorProcessor::new(vec![channel(1, 0.0, 0.0)]).expect("processor");
    let preset = PipelinePreset {
        black_cutoff: 0.01_f32.to_bits(),
        ..immediate(0)
    };
    let colors = process(&mut processor, &frame, preset, 100);
    assert_eq!(
        colors[0].color,
        Rgb16 {
            red: 0,
            green: 0,
            blue: 0
        }
    );
}

#[test]
fn attack_and_release_smooth_in_linear_light() {
    let white = [255, 255, 255, 0];
    let black = [0, 0, 0, 0];
    let white_frame = FrameView::new(&white, 1, 1, 4, PixelFormat::Rgba8).expect("frame");
    let black_frame = FrameView::new(&black, 1, 1, 4, PixelFormat::Rgba8).expect("frame");
    let preset = PipelinePreset {
        attack: 0.5_f32.to_bits(),
        release: 0.25_f32.to_bits(),
        ..immediate(0)
    };
    let mut processor = ColorProcessor::new(vec![channel(1, 0.0, 0.0)]).expect("processor");
    let first = process(&mut processor, &white_frame, preset, 100);
    let second = process(&mut processor, &black_frame, preset, 100);
    assert!((48_150..=48_250).contains(&first[0].color.red));
    assert!((42_300..=42_500).contains(&second[0].color.red));
}

#[test]
fn maps_channel_positions_and_preserves_channel_order() {
    let pixels = [255, 0, 0, 0, 0, 0, 255, 0];
    let frame = FrameView::new(&pixels, 2, 1, 8, PixelFormat::Rgba8).expect("frame");
    let mut processor =
        ColorProcessor::new(vec![channel(9, 1.0, 0.0), channel(3, 0.0, 0.0)]).expect("processor");
    let colors = process(&mut processor, &frame, immediate(0), 100);
    assert_eq!(
        colors[0],
        ChannelColor {
            channel_id: 9,
            color: Rgb16 {
                red: 0,
                green: 0,
                blue: u16::MAX
            }
        }
    );
    assert_eq!(
        colors[1],
        ChannelColor {
            channel_id: 3,
            color: Rgb16 {
                red: u16::MAX,
                green: 0,
                blue: 0
            }
        }
    );
}

#[test]
fn frame_errors_are_told_apart() {
    assert!(matches!(
        FrameView::new(&[], 0, 1, 0, PixelFormat::Rgb8),
        Err(FrameError::EmptyDimensions)
    ));
    assert!(matches!(
        FrameView::new(&[0; 4], usize::MAX, 2, 4, PixelFormat::Rgba8),
        Err(FrameError::DimensionsOverflow)
    ));
    let short = FrameView::new(&[0; 5], 1, 2, 3, PixelFormat::Rgb8).expect_err("too short");
    assert_eq!(
        short.message(),
        "frame buffer has 5 bytes but at least 6 are required"
    );
    let narrow = FrameView::new(&[0; 8], 2, 1, 7, PixelFormat::Rgba8).expect_err("too narrow");
    assert_eq!(
        narrow.message(),
        "stride 7 is smaller than packed row size 8"
    );
}

#[test]
fn negative_stride_is_stored_upside_down() {
    let pixels = [1, 2, 3, 4, 5, 6];
    let frame = FrameView::new(&pixels, 1, 2, -3, PixelFormat::Rgb8).expect("frame");
    assert_eq!(
        frame.pixel(0, 0),
        Rgb8 {
            red: 4,
            green: 5,
            blue: 6
        }
    );
    assert_eq!(
        frame.pixel(0, 1),
        Rgb8 {
            red: 1,
            green: 2,
            blue: 3
        }
    );
}

#[test]
fn windows_are_cut_at_the_edges() {
    let pixels = [0; 75];
    let frame = FrameView::new(&pixels, 5, 5, 15, PixelFormat::Rgb8).expect("frame");
    assert_eq!(
        frame.window(2, 2, 1),
        SampleWindow {
            min_x: 1,
            max_x: 3,
            min_y: 1,
            max_y: 3
        }
    );
    assert_eq!(
        frame.window(0, 4, 2),
        SampleWindow {
            min_x: 0,
            max_x: 2,
            min_y: 2,
            max_y: 4
        }
    );
    assert_eq!(frame.samples(2, 2, 1).len(), 9);
    assert_eq!(frame.samples(0, 0, 0).len(), 1);
    assert_eq!(frame.samples(4, 4, 99).len(), 25);
}

#[test]
fn presets_of_the_modes_are_exact_and_valid() {
    let exposures = [0.0_f32, 0.15, 0.3, -0.1];
    let deltas = [-0.25_f32, 0.0, 0.2, 0.4];
    let modes = [
        SyncMode::Video,
        SyncMode::Game,
        SyncMode::Music,
        SyncMode::Scene,
    ];
    let intensities = [
        Intensity::Subtle,
        Intensity::Moderate,
        Intensity::High,
        Intensity::Extreme,
    ];
    let calm = ([0.28_f32, 0.48, 0.72, 1.0], [0.12_f32, 0.2, 0.34, 0.52]);
    let quick = ([0.36_f32, 0.6, 0.84, 1.0], [0.18_f32, 0.3, 0.45, 0.65]);
    let cutoffs = [0.006_f32, 0.003, 0.01, 0.008];
    let radii = [2_u32, 1, 3, 4];
    let wider = [2_u32, 1, 0, 0];
    for (m, mode) in modes.into_iter().enumerate() {
        for (i, intensity) in intensities.into_iter().enumerate() {
            let preset = PipelinePreset::for_mode(mode, intensity);
            assert_eq!(f32::from_bits(preset.exposure), exposures[m] + deltas[i]);
            assert_eq!(f32::from_bits(preset.black_cutoff), cutoffs[m]);
            assert_eq!(preset.sample_radius, radii[m] + wider[i]);
            let (attacks, releases) = if mode == SyncMode::Game { quick } else { calm };
            assert_eq!(f32::from_bits(preset.attack), attacks[i]);
            assert_eq!(f32::from_bits(preset.release), releases[i]);
            assert!(preset.validate().is_ok());
        }
    }
}

#[test]
fn invalid_presets_are_refused_and_change_nothing() {
    for broken in [
        PipelinePreset {
            exposure: f32::NAN.to_bits(),
            ..immediate(0)
        },
        PipelinePreset {
            exposure: f32::INFINITY.to_bits(),
            ..immediate(0)
        },
        PipelinePreset {
            black_cutoff: 1.5_f32.to_bits(),
            ..immediate(0)
        },
        PipelinePreset {
            attack: (-0.5_f32).to_bits(),
            ..immediate(0)
        },
        PipelinePreset {
            release: f32::NEG_INFINITY.to_bits(),
            ..immediate(0)
        },
    ] {
        assert_eq!(broken.validate(), Err(ProcessorError::InvalidPreset));
        let mut processor = ColorProcessor::default();
        assert_eq!(
            processor.process_with_preset(broken, &Vec::new(), &Vec::new()),
            Err(ProcessorError::InvalidPreset)
        );
    }
    assert!(PipelinePreset {
        black_cutoff: (-0.0_f32).to_bits(),
        ..immediate(0)
    }
    .validate()
    .is_ok());
}

#[test]
fn channels_are_distinct_and_keep_their_colors() {
    assert!(matches!(
        ColorProcessor::new(vec![channel(1, 0.0, 0.0), channel(1, 1.0, 1.0)]),
        Err(ProcessorError::DuplicateChannel(1))
    ));
    let mut processor =
        ColorProcessor::new(vec![channel(1, 0.0, 0.0), channel(2, 1.0, 1.0)]).expect("processor");
    let one = LinearRgb {
        red: 1.0_f32.to_bits(),
        green: 0,
        blue: 0,
    };
    let two = LinearRgb {
        red: 0,
        green: 1.0_f32.to_bits(),
        blue: 0,
    };
    let sent = Rgb16 {
        red: 1,
        green: 2,
        blue: 3,
    };
    processor
        .process_with_preset(immediate(0), &vec![one, two], &vec![sent, sent])
        .expect("process");
    processor
        .set_channels(vec![channel(3, 0.0, 0.0), channel(2, 0.0, 0.0)])
        .expect("channels");
    let black = LinearRgb::default();
    assert_eq!(processor.starting_colors(), vec![black, two]);
    processor
        .set_channels(vec![channel(1, 0.0, 0.0)])
        .expect("channels");
    assert_eq!(processor.starting_colors(), vec![black]);
    assert!(processor
        .set_channels(vec![channel(5, 0.0, 0.0), channel(5, 0.0, 0.0)])
        .is_err());
    assert_eq!(processor.channels().len(), 1);
    processor.reset_smoothing();
    assert_eq!(processor.starting_colors(), vec![black]);
}

#[test]
fn games_are_sampled_closer_and_brighter() {
    for intensity in [
        Intensity::Subtle,
        Intensity::Moderate,
        Intensity::High,
        Intensity::Extreme,
    ] {
        let game = PipelinePreset::for_mode(SyncMode::Game, intensity);
        let video = PipelinePreset::for_mode(SyncMode::Video, intensity);
        assert!(game.sample_radius < video.sample_radius);
        assert!(f32::from_bits(game.exposure) > f32::from_bits(video.exposure));
        let mut processor = ColorProcessor::new(vec![channel(4, 0.0, 0.0)]).expect("processor");
        let color = Rgb16 {
            red: 1,
            green: 2,
            blue: 3,
        };
        let colors = processor
            .process(
                SyncMode::Game,
                intensity,
                &vec![LinearRgb::default()],
                &vec![color],
            )
            .expect("colors");
        assert_eq!(
            colors,
            vec![ChannelColor {
                channel_id: 4,
                color
            }]
        );
    }
}

#[test]
fn targets_are_kept_within_range() {
    let preset = PipelinePreset::for_mode(SyncMode::Video, Intensity::Moderate);
    assert_eq!(
        preset.target(linear_light([1.5, -0.5, 0.25])),
        linear_light([1.0, 0.0, 0.25])
    );
    assert_eq!(
        preset.target(linear_light([f32::INFINITY, f32::NEG_INFINITY, 0.5])),
        linear_light([1.0, 0.0, 0.5])
    );
    let unknown = linear_light([f32::NAN, f32::NAN, f32::NAN]);
    let target = preset.target(unknown);
    assert!(f32::from_bits(target.red).is_nan());
    assert_ne!(target, unknown);
}

#[test]
fn dark_colors_become_black() {
    let preset = PipelinePreset::for_mode(SyncMode::Video, Intensity::Moderate);
    assert_eq!(
        preset.target(linear_light([0.006, 0.001, 0.0])),
        LinearRgb::default()
    );
    let brighter = linear_light([0.006, 0.0061, 0.0]);
    assert_eq!(preset.target(brighter), brighter);
    assert_eq!(
        preset.target(linear_light([f32::NAN, 0.001, 0.0])),
        LinearRgb::default()
    );
}

#[test]
fn rising_components_take_the_attack() {
    let preset = PipelinePreset::for_mode(SyncMode::Game, Intensity::High);
    assert_eq!(
        preset.coefficients(linear_light([0.2, 0.5, 0.0]), linear_light([0.3, 0.4, -0.0])),
        linear_light([0.84, 0.45, 0.84])
    );
    assert_eq!(
        preset.coefficients(linear_light([0.2, f32::NAN, 1.0]), linear_light([f32::NAN, 0.4, 1.0])),
        linear_light([0.45, 0.45, 0.84])
    );
}

#[test]
fn games_smooth_faster() {
    for intensity in [
        Intensity::Subtle,
        Intensity::Moderate,
        Intensity::High,
        Intensity::Extreme,
    ] {
        let game = PipelinePreset::for_mode(SyncMode::Game, intensity);
        let video = PipelinePreset::for_mode(SyncMode::Video, intensity);
        let [attack, release] = [game.attack, game.release].map(f32::from_bits);
        let [slow_attack, slow_release] = [video.attack, video.release].map(f32::from_bits);
        assert!(attack >= slow_attack && release >= slow_release);
        assert!(attack > slow_attack || release > slow_release);
    }
}

#[test]
fn default_processor_has_no_channels() {
    let processor = ColorProcessor::default();
    assert!(processor.channels().is_empty());
    assert!(processor.starting_colors().is_empty());
}

#[test]
fn colors_and_presets_are_compared_as_numbers() {
    assert_eq!(linear_light([0.0, 0.5, 1.0]), linear_light([-0.0, 0.5, 1.0]));
    assert_ne!(linear_light([0.0, 0.5, 1.0]), linear_light([0.0, -0.5, 1.0]));
    let preset = PipelinePreset::for_mode(SyncMode::Video, Intensity::Moderate);
    let mut other = preset;
    other.exposure = (-0.0_f32).to_bits();
    assert_eq!(preset, other);
    other.attack = f32::NAN.to_bits();
    assert_ne!(other, other);
    assert_eq!(point(0.0, 1.0), point(-0.0, 1.0));
    assert_ne!(point(0.0, 1.0), point(1.0, 0.0));
}
