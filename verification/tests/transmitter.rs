use ws2812_ring::clock::ClockError;
use ws2812_ring::codec::Frame;
use ws2812_ring::codec::Pixel;
use ws2812_ring::transmitter::Ws2812;

#[test]
fn construct_reference_transmitter() {
    let w = Ws2812::new(125_000, 12).unwrap();
    assert_eq!(w.len(), 12);
    assert!(w.is_idle());
    let c = w.config();
    assert_eq!(c.divider.raw, 4000);
    assert_eq!(c.program.code, vec![0xE081, 0x6221, 0x1124, 0x1401, 0xA442]);
    assert_eq!(c.program.wrap_target, 1);
    assert_eq!(c.program.wrap_source, 4);
    assert_eq!(c.program.side_set_bits, 1);
    assert!(c.shift.auto_fill);
    assert_eq!(c.shift.threshold, 24);
    assert!(c.shift.shift_left);
    assert!(c.shift.fifo_tx_only);
}

#[test]
fn construct_rejects_bad_clocks() {
    assert!(matches!(Ws2812::new(7_999, 12), Err(ClockError::TooSlow)));
    assert!(matches!(Ws2812::new(0x0100_0000, 12), Err(ClockError::TooFast)));
}

#[test]
fn write_packs_the_frame() {
    let mut w = Ws2812::new(125_000, 3).unwrap();
    let mut frame = Frame::new(3, Pixel::new(0, 0, 0));
    frame.set(0, Pixel::new(255, 0, 0));
    frame.set(1, Pixel::new(0, 255, 0));
    frame.set(2, Pixel::new(0, 0, 255));
    let words = w.write(&frame);
    assert_eq!(words, vec![0x00FF0000, 0xFF000000, 0x0000FF00]);
}

#[test]
fn writes_are_serialized() {
    // A write leaves the transmitter busy until its completion is
    // observed; only then can the next frame be sent.
    let mut w = Ws2812::new(125_000, 2).unwrap();
    let frame = Frame::new(2, Pixel::new(1, 2, 3));
    assert!(w.is_idle());
    let first = w.write(&frame);
    assert!(!w.is_idle());
    w.complete_write();
    assert!(w.is_idle());
    let second = w.write(&frame);
    assert!(!w.is_idle());
    assert_eq!(first, second);
    w.complete_write();
    assert!(w.is_idle());
}
