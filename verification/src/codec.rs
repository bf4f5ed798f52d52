//! Pixel word codec and the frame buffer.
//!
//! The state machine's shift register consumes 24 bits per pixel, most
//! significant first, in the wire order green, red, blue. A pixel is
//! therefore packed as `(g << 24) | (r << 16) | (b << 8)`: the low byte is
//! padding and is never shifted out, because the shift threshold is 24.
//! This module is the single point of truth for that layout.

use vstd::prelude::*;

verus! {

/// One pixel: 8-bit red, green and blue channels.
#[derive(Clone, Copy, PartialEq, Eq, Structural, Debug)]
pub struct Pixel {
    pub r: u8,
    pub g: u8,
    pub b: u8,
}

impl Pixel {
    pub fn new(r: u8, g: u8, b: u8) -> (p: Pixel)
        ensures
            p.r == r,
            p.g == g,
            p.b == b,
    {
        Pixel { r, g, b }
    }
}

/// The 32-bit word pushed to the shift register for one pixel:
/// green in the top byte, then red, then blue, then a zero pad byte.
pub open spec fn packed_word(p: Pixel) -> u32 {
    ((p.g as u32) << 24) | ((p.r as u32) << 16) | ((p.b as u32) << 8)
}

/// Pack one pixel into its shift-register word.
pub fn pack(p: Pixel) -> (w: u32)
    ensures
        w == packed_word(p),
{
    ((p.g as u32) << 24) | ((p.r as u32) << 16) | ((p.b as u32) << 8)
}

/// Pack a whole frame of pixels, in order, one word per pixel.
pub fn pack_frame(colors: &Vec<Pixel>) -> (words: Vec<u32>)
    ensures
        words@.len() == colors@.len(),
        forall|i: int| 0 <= i < colors@.len() ==> words@[i] == packed_word(colors@[i]),
{
    let mut words: Vec<u32> = Vec::new();
    let mut i: usize = 0;
    while i < colors.len()
        invariant
            i <= colors@.len(),
            words@.len() == i,
            forall|j: int| 0 <= j < i ==> words@[j] == packed_word(colors@[j]),
        decreases colors@.len() - i,
    {
        let w = pack(colors[i]);
        words.push(w);
        i = i + 1;
    }
    words
}

/// The pad byte of a packed word is zero: only 24 bits ever reach the wire.
pub proof fn lemma_packed_pad_byte_zero(p: Pixel)
    ensures
        packed_word(p) & 0xff == 0,
{
    let g = p.g;
    let r = p.r;
    let b = p.b;
    assert((((g as u32) << 24) | ((r as u32) << 16) | ((b as u32) << 8)) & 0xff == 0)
        by (bit_vector);
}

/// Packing loses nothing: each channel can be read back from its byte lane,
/// so distinct pixels pack to distinct words.
pub proof fn lemma_packed_word_channels(p: Pixel)
    ensures
        (packed_word(p) >> 24) & 0xff == p.g,
        (packed_word(p) >> 16) & 0xff == p.r,
        (packed_word(p) >> 8) & 0xff == p.b,
{
    let g = p.g;
    let r = p.r;
    let b = p.b;
    assert(((((g as u32) << 24) | ((r as u32) << 16) | ((b as u32) << 8)) >> 24) & 0xff
        == g as u32) by (bit_vector);
    assert(((((g as u32) << 24) | ((r as u32) << 16) | ((b as u32) << 8)) >> 16) & 0xff
        == r as u32) by (bit_vector);
    assert(((((g as u32) << 24) | ((r as u32) << 16) | ((b as u32) << 8)) >> 8) & 0xff
        == b as u32) by (bit_vector);
}

/// A fixed-length frame of pixels, one per physical LED, in ring order.
/// The length is fixed at construction and never changes.
pub struct Frame {
    pixels: Vec<Pixel>,
}

impl View for Frame {
    type V = Seq<Pixel>;

    closed spec fn view(&self) -> Seq<Pixel> {
        self.pixels@
    }
}

impl Frame {
    /// A frame of `n` copies of `fill`.
    pub fn new(n: usize, fill: Pixel) -> (f: Frame)
        ensures
            f@.len() == n,
            forall|i: int| 0 <= i < n ==> f@[i] == fill,
    {
        let mut pixels: Vec<Pixel> = Vec::new();
        let mut i: usize = 0;
        while i < n
            invariant
                i <= n,
                pixels@.len() == i,
                forall|j: int| 0 <= j < i ==> pixels@[j] == fill,
            decreases n - i,
        {
            pixels.push(fill);
            i = i + 1;
        }
        Frame { pixels }
    }

    pub fn len(&self) -> (n: usize)
        ensures
            n == self@.len(),
    {
        self.pixels.len()
    }

    pub fn get(&self, i: usize) -> (p: Pixel)
        requires
            i < self@.len(),
        ensures
            p == self@[i as int],
    {
        self.pixels[i]
    }

    /// Replace the pixel of LED `i`; the frame keeps its length.
    pub fn set(&mut self, i: usize, p: Pixel)
        requires
            i < old(self)@.len(),
        ensures
            final(self)@ == old(self)@.update(i as int, p),
            final(self)@.len() == old(self)@.len(),
    {
        self.pixels.set(i, p);
    }

    /// Copy a palette into the frame, palette entry `k` onto LED `k`.
    pub fn fill_from(&mut self, palette: &Vec<Pixel>)
        requires
            palette@.len() == old(self)@.len(),
        ensures
            final(self)@ == palette@,
    {
        let mut i: usize = 0;
        while i < palette.len()
            invariant
                i <= palette@.len(),
                self@.len() == palette@.len(),
                forall|j: int| 0 <= j < i ==> self@[j] == palette@[j],
            decreases palette@.len() - i,
        {
            self.pixels.set(i, palette[i]);
            i = i + 1;
        }
        assert(self@ =~= palette@);
    }

    /// Read-only view of the pixels, for packing and transmission.
    pub fn pixels(&self) -> (v: &Vec<Pixel>)
        ensures
            v@ == self@,
    {
        &self.pixels
    }
}

} // verus!
