use ws2812_ring::codec::Frame;
use ws2812_ring::codec::Pixel;
use ws2812_ring::codec::pack;
use ws2812_ring::codec::pack_frame;

#[test]
fn pack_pure_red() {
    assert_eq!(pack(Pixel::new(255, 0, 0)), 0x00FF0000);
}

#[test]
fn pack_pure_green() {
    assert_eq!(pack(Pixel::new(0, 255, 0)), 0xFF000000);
}

#[test]
fn pack_pure_blue() {
    assert_eq!(pack(Pixel::new(0, 0, 255)), 0x0000FF00);
}

#[test]
fn pack_black_and_white() {
    assert_eq!(pack(Pixel::new(0, 0, 0)), 0x00000000);
    assert_eq!(pack(Pixel::new(255, 255, 255)), 0xFFFFFF00);
}

#[test]
fn pack_mixed_channels() {
    // g=0x34 in the top byte, r=0x12 below it, b=0x56, zero pad.
    assert_eq!(pack(Pixel::new(0x12, 0x34, 0x56)), 0x34125600);
}

#[test]
fn pack_pad_byte_always_zero() {
    let mut g: u16 = 0;
    while g < 256 {
        let w = pack(Pixel::new(77, g as u8, 201));
        assert_eq!(w & 0xFF, 0);
        g += 1;
    }
}

#[test]
fn pack_frame_in_order() {
    let colors = vec![
        Pixel::new(255, 0, 0),
        Pixel::new(0, 255, 0),
        Pixel::new(0, 0, 255),
        Pixel::new(1, 2, 3),
    ];
    let words = pack_frame(&colors);
    assert_eq!(words, vec![0x00FF0000, 0xFF000000, 0x0000FF00, 0x02010300]);
}

#[test]
fn pack_frame_empty() {
    let words = pack_frame(&vec![]);
    assert!(words.is_empty());
}

#[test]
fn frame_keeps_length_and_order() {
    let mut f = Frame::new(3, Pixel::new(9, 9, 9));
    assert_eq!(f.len(), 3);
    assert_eq!(f.get(1), Pixel::new(9, 9, 9));
    f.set(1, Pixel::new(1, 2, 3));
    assert_eq!(f.len(), 3);
    assert_eq!(f.get(0), Pixel::new(9, 9, 9));
    assert_eq!(f.get(1), Pixel::new(1, 2, 3));
    assert_eq!(f.get(2), Pixel::new(9, 9, 9));
}

#[test]
fn frame_fill_from_palette() {
    let mut f = Frame::new(3, Pixel::new(0, 0, 0));
    let palette = vec![Pixel::new(1, 0, 0), Pixel::new(0, 1, 0), Pixel::new(0, 0, 1)];
    f.fill_from(&palette);
    assert_eq!(f.get(0), Pixel::new(1, 0, 0));
    assert_eq!(f.get(1), Pixel::new(0, 1, 0));
    assert_eq!(f.get(2), Pixel::new(0, 0, 1));
    assert_eq!(f.len(), 3);
}
