use fixed::types::U24F8;
use ws2812_ring::clock::ClockError;
use ws2812_ring::clock::clock_divider;

#[test]
fn divider_reference_clock() {
    // 125,000 kHz system clock, 800 kHz protocol, 10 cycles per bit:
    // divider 15.625 exactly, raw 15 * 256 + 160 = 4000.
    let d = clock_divider(125_000, 10).unwrap();
    assert_eq!(d.raw, 4000);
    assert_eq!(d.raw / 256, 15);
    assert_eq!(d.raw % 256, 160);
}

#[test]
fn divider_matches_fixed_point_reference() {
    // The same computation in 24.8 fixed point with the fixed crate.
    let sys_clocks: [u32; 5] = [125_000, 133_000, 123_456, 8_000, 48_000];
    for sys in sys_clocks {
        let clock_freq = U24F8::from_num(sys);
        let ws2812_freq = U24F8::from_num(800);
        let bit_freq = ws2812_freq * 10u32;
        let reference = clock_freq / bit_freq;
        let d = clock_divider(sys, 10).unwrap();
        assert_eq!(d.raw, reference.to_bits());
    }
}

#[test]
fn divider_rounds_down() {
    // 123,456 kHz: exact ratio 15.432, raw floor(123456 * 256 / 8000) = 3950.
    let d = clock_divider(123_456, 10).unwrap();
    assert_eq!(d.raw, (123_456u64 * 256 / 8_000) as u32);
    assert_eq!(d.raw, 3950);
}

#[test]
fn divider_minimum_clock() {
    // The slowest valid system clock gives divider one exactly.
    let d = clock_divider(8_000, 10).unwrap();
    assert_eq!(d.raw, 256);
}

#[test]
fn divider_rejects_slow_clock() {
    assert_eq!(clock_divider(7_999, 10), Err(ClockError::TooSlow));
    assert_eq!(clock_divider(0, 10), Err(ClockError::TooSlow));
}

#[test]
fn divider_rejects_clock_out_of_range() {
    assert_eq!(clock_divider(0x0100_0000, 10), Err(ClockError::TooFast));
    assert_eq!(clock_divider(u32::MAX, 10), Err(ClockError::TooFast));
}
