use rand::rngs::SmallRng;
use rand::SeedableRng;
use ruidos::canvas::{canvas_from_config, parse_dimension, Canvas, ConfigError};
use ruidos::frame::{band_color, render_frame};
use ruidos::params::{FrameParams, Projection};
use ruidos::sample::{float_less_than, Band, NoiseValue};

fn value(x: f64) -> NoiseValue {
    NoiseValue::from_bits(x.to_bits())
}

fn uniform_frame(canvas: &Canvas, x: f64, params: &FrameParams) -> Vec<u8> {
    let samples = vec![value(x); canvas.pixel_count()];
    render_frame(canvas, &samples, params)
}

fn calm() -> FrameParams {
    FrameParams::from_draws(true, 0, false)
}

#[test]
fn water_scenario() {
    let canvas = Canvas::new(2, 1).unwrap();
    assert_eq!(uniform_frame(&canvas, 0.1, &calm()), vec![2, 1, 1, 40, 2, 1, 1, 40]);
}

#[test]
fn mountains_scenario() {
    let canvas = Canvas::new(2, 1).unwrap();
    assert_eq!(uniform_frame(&canvas, 0.5, &calm()), vec![40, 46, 34, 20, 40, 46, 34, 20]);
}

#[test]
fn peaks_scenario() {
    let canvas = Canvas::new(2, 1).unwrap();
    assert_eq!(uniform_frame(&canvas, 0.9, &calm()), vec![20, 25, 255, 0, 20, 25, 255, 0]);
}

#[test]
fn limits_belong_to_upper_band() {
    assert_eq!(value(0.3).band(), Band::Mountains);
    assert_eq!(value(0.7).band(), Band::Peaks);
    assert_eq!(NoiseValue::from_bits(0.3f64.to_bits() - 1).band(), Band::Water);
    assert_eq!(NoiseValue::from_bits(0.7f64.to_bits() - 1).band(), Band::Mountains);
}

#[test]
fn bands_of_edge_values() {
    assert_eq!(value(-0.0).band(), Band::Water);
    assert_eq!(value(0.0).band(), Band::Water);
    assert_eq!(value(-1.5).band(), Band::Water);
    assert_eq!(value(f64::NEG_INFINITY).band(), Band::Water);
    assert_eq!(value(1.3).band(), Band::Peaks);
    assert_eq!(value(f64::INFINITY).band(), Band::Peaks);
    assert_eq!(value(f64::NAN).band(), Band::Peaks);
}

#[test]
fn bit_comparison_matches_f64() {
    let xs = [
        -f64::INFINITY, -2.5, -1.0, -0.3, -f64::MIN_POSITIVE, -0.0, 0.0, f64::MIN_POSITIVE,
        0.1, 0.3, 0.7, 1.0, 2.5, f64::MAX, f64::INFINITY, f64::NAN, -f64::NAN,
    ];
    for a in xs {
        for b in xs {
            assert_eq!(float_less_than(a.to_bits(), b.to_bits()), a < b, "{} < {}", a, b);
        }
    }
}

#[test]
fn frame_length_is_four_bytes_per_pixel() {
    for (w, h) in [(1u32, 1u32), (3, 7), (16, 9), (600, 500)] {
        let canvas = Canvas::new(w, h).unwrap();
        let frame = uniform_frame(&canvas, 0.5, &calm());
        assert_eq!(frame.len(), 4 * w as usize * h as usize);
        assert_eq!(canvas.buffer_len(), frame.len());
    }
}

#[test]
fn alpha_follows_band() {
    let canvas = Canvas::new(3, 2).unwrap();
    let xs = [0.1, 0.3, 0.69, 0.7, -0.8, 0.95];
    let samples: Vec<NoiseValue> = xs.iter().map(|x| value(*x)).collect();
    let params = FrameParams::from_draws(false, 12, false);
    let frame = render_frame(&canvas, &samples, &params);
    let alphas: Vec<u8> = frame.chunks(4).map(|p| p[3]).collect();
    assert_eq!(alphas, vec![40, 20, 20, 0, 40, 0]);
}

#[test]
fn pixels_are_row_major() {
    let canvas = Canvas::new(2, 2).unwrap();
    let samples = vec![value(0.9), value(0.1), value(0.5), value(0.9)];
    let params = FrameParams::from_draws(false, 3, false);
    let frame = render_frame(&canvas, &samples, &params);
    assert_eq!(
        frame,
        vec![20, 25, 255, 0, 18, 17, 17, 40, 43, 46, 37, 20, 20, 25, 255, 0]
    );
}

#[test]
fn same_inputs_give_same_frame() {
    let canvas = Canvas::new(4, 3).unwrap();
    let samples: Vec<NoiseValue> = (0..12).map(|i| value(i as f64 / 10.0 - 0.2)).collect();
    let params = FrameParams::from_draws(true, 20, false);
    let a = render_frame(&canvas, &samples, &params);
    let b = render_frame(&canvas, &samples, &params);
    assert_eq!(a, b);
}

#[test]
fn channel_arithmetic_wraps() {
    let params = FrameParams { base: 255, variation: 250, flicker: false };
    assert_eq!(band_color(Band::Water, &params), [1, 0, 0, 40]);
    assert_eq!(band_color(Band::Mountains, &params), [34, 46, 28, 20]);
    assert_eq!(band_color(Band::Peaks, &params), [20, 25, 255, 0]);
}

#[test]
fn spike_frame_lifts_water() {
    let params = FrameParams::from_draws(false, 34, false);
    assert_eq!(params.base, 16);
    assert_eq!(band_color(Band::Water, &params), [18, 17, 17, 40]);
    assert_eq!(band_color(Band::Mountains, &params), [74, 46, 68, 20]);
}

#[test]
fn flicker_selects_projection() {
    assert_eq!(FrameParams::from_draws(true, 0, true).projection(), Projection::DepthAcross);
    assert_eq!(FrameParams::from_draws(true, 0, false).projection(), Projection::Volume);
}

#[test]
fn drawn_parameters_stay_in_range_and_vary() {
    let mut rng = SmallRng::seed_from_u64(2024);
    let mut spikes = 0;
    let mut flickers = 0;
    let mut variations = std::collections::BTreeSet::new();
    for _ in 0..2000 {
        let p = FrameParams::draw(&mut rng);
        assert!(p.base == 0 || p.base == 16);
        assert!(p.variation < 35);
        if p.base == 16 {
            spikes += 1;
        }
        if p.flicker {
            flickers += 1;
        }
        variations.insert(p.variation);
    }
    assert!(spikes > 0 && spikes < 400, "spikes: {}", spikes);
    assert!(flickers > 100 && flickers < 700, "flickers: {}", flickers);
    assert!(variations.len() > 20);
}

#[test]
fn environment_override_sizes_canvas() {
    let canvas = canvas_from_config(Some("10"), Some("5")).unwrap();
    assert_eq!((canvas.width, canvas.height), (10, 5));
    assert_eq!(canvas.buffer_len(), 200);
    assert_eq!(uniform_frame(&canvas, 0.4, &calm()).len(), 200);
}

#[test]
fn missing_dimensions_take_defaults() {
    let canvas = canvas_from_config(None, None).unwrap();
    assert_eq!((canvas.width, canvas.height), (600, 500));
    let canvas = canvas_from_config(Some("32"), None).unwrap();
    assert_eq!((canvas.width, canvas.height), (32, 500));
}

#[test]
fn dimension_parsing() {
    assert_eq!(parse_dimension("600"), Ok(600));
    assert_eq!(parse_dimension("+42"), Ok(42));
    assert_eq!(parse_dimension("007"), Ok(7));
    assert_eq!(parse_dimension("4294967295"), Ok(u32::MAX));
    assert_eq!(parse_dimension("4294967296"), Err(ConfigError::TooLarge));
    assert_eq!(parse_dimension("99999999999999999999999"), Err(ConfigError::TooLarge));
    assert_eq!(parse_dimension(""), Err(ConfigError::Malformed));
    assert_eq!(parse_dimension("+"), Err(ConfigError::Malformed));
    assert_eq!(parse_dimension("-3"), Err(ConfigError::Malformed));
    assert_eq!(parse_dimension("12a"), Err(ConfigError::Malformed));
    assert_eq!(parse_dimension(" 12"), Err(ConfigError::Malformed));
}

#[test]
fn invalid_configuration_is_refused() {
    assert_eq!(canvas_from_config(Some("0"), Some("5")), Err(ConfigError::Zero));
    assert_eq!(canvas_from_config(Some("10"), Some("0")), Err(ConfigError::Zero));
    assert_eq!(canvas_from_config(Some("wide"), Some("0")), Err(ConfigError::Malformed));
    assert_eq!(canvas_from_config(Some("10"), Some("5000000000")), Err(ConfigError::TooLarge));
    assert_eq!(Canvas::new(u32::MAX, u32::MAX), Err(ConfigError::TooLarge));
}
