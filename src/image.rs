//! The emitted image: a binary PPM frame of `WIDTH` x `HEIGHT` pixels,
//! written from the last row and column back to the first.

use vstd::prelude::*;

verus! {

pub const WIDTH: usize = 512;

pub const HEIGHT: usize = 512;

/// `WIDTH * HEIGHT`.
pub const PIXELS: usize = 262144;

/// Bytes of the header "P6 512 512 255 ".
pub const HEADER_LEN: usize = 15;

/// Bytes of pixel data in a complete frame: `PIXELS * 3`.
pub const BODY_LEN: usize = 786432;

/// The ASCII header "P6 512 512 255 ": binary RGB, width, height and the
/// largest channel value, each followed by a space.
pub open spec fn header() -> Seq<u8> {
    seq![80u8, 54, 32, 53, 49, 50, 32, 53, 49, 50, 32, 50, 53, 53, 32]
}

/// Image coordinates (x, y) of the pixel emitted at position `i`.
pub open spec fn spec_pixel_at(i: int) -> (int, int) {
    ((WIDTH - 1) - i % (WIDTH as int), (HEIGHT - 1) - i / (WIDTH as int))
}

/// Coordinates (x, y) of the `i`-th pixel of the stream. Rows run from
/// y = 511 down to 0, and within a row x runs from 511 down to 0.
pub fn pixel_at(i: usize) -> (r: (usize, usize))
    requires
        i < PIXELS,
    ensures
        (r.0 as int, r.1 as int) == spec_pixel_at(i as int),
        r.0 < WIDTH,
        r.1 < HEIGHT,
{
    ((WIDTH - 1) - i % WIDTH, (HEIGHT - 1) - i / WIDTH)
}

/// A channel value cut down to a byte: below 0 gives 0, above 255 gives 255.
pub open spec fn clamp_byte(v: int) -> u8 {
    if v < 0 {
        0
    } else if v > 255 {
        255
    } else {
        v as u8
    }
}

/// The byte emitted for an accumulated channel value, already truncated
/// toward zero to an integer.
pub fn channel_byte(v: i64) -> (r: u8)
    ensures
        r == clamp_byte(v as int),
{
    if v < 0 {
        0
    } else if v > 255 {
        255
    } else {
        v as u8
    }
}

/// A PPM frame being written: the header, then three bytes per pixel in
/// emission order.
pub struct Frame {
    bytes: Vec<u8>,
    pixels: usize,
}

impl View for Frame {
    type V = Seq<u8>;

    closed spec fn view(&self) -> Seq<u8> {
        self.bytes@
    }
}

impl Frame {
    /// Number of pixels written so far.
    pub closed spec fn written(&self) -> nat {
        self.pixels as nat
    }

    /// The header is in place, then exactly three bytes for each pixel
    /// written, and no more pixels than the image holds.
    pub closed spec fn wf(&self) -> bool {
        &&& self.pixels <= PIXELS
        &&& self.bytes@.len() == HEADER_LEN + 3 * self.pixels
        &&& self.bytes@.subrange(0, HEADER_LEN as int) == header()
    }

    /// The pixel bytes written so far.
    pub open spec fn body(&self) -> Seq<u8> {
        self@.skip(HEADER_LEN as int)
    }

    /// A frame holding the header and no pixel.
    pub fn new() -> (r: Frame)
        ensures
            r.wf(),
            r@ == header(),
            r.written() == 0,
    {
        let bytes: Vec<u8> = vec![80u8, 54, 32, 53, 49, 50, 32, 53, 49, 50, 32, 50, 53, 53, 32];
        assert(bytes@ =~= header());
        assert(bytes@.subrange(0, HEADER_LEN as int) =~= header());
        Frame { bytes, pixels: 0 }
    }

    /// Appends the next pixel's red, green and blue bytes.
    pub fn push_pixel(&mut self, red: u8, green: u8, blue: u8)
        requires
            old(self).wf(),
            old(self).written() < PIXELS,
        ensures
            final(self).wf(),
            final(self)@ == old(self)@ + seq![red, green, blue],
            final(self).written() == old(self).written() + 1,
    {
        let ghost before = self.bytes@;
        self.bytes.push(red);
        self.bytes.push(green);
        self.bytes.push(blue);
        self.pixels = self.pixels + 1;
        assert(self.bytes@ =~= before + seq![red, green, blue]);
        assert(self.bytes@.subrange(0, HEADER_LEN as int) =~= before.subrange(0, HEADER_LEN as int));
    }

    pub fn pixels_written(&self) -> (r: usize)
        requires
            self.wf(),
        ensures
            r == self.written(),
    {
        self.pixels
    }

    /// Whether every pixel of the image has been written.
    pub fn is_complete(&self) -> (r: bool)
        requires
            self.wf(),
        ensures
            r == (self.written() == PIXELS),
    {
        self.pixels == PIXELS
    }

    /// The bytes written so far, header included.
    pub fn as_bytes(&self) -> (r: &[u8])
        ensures
            r@ == self@,
    {
        self.bytes.as_slice()
    }

    /// The frame's bytes, header included.
    pub fn into_bytes(self) -> (r: Vec<u8>)
        ensures
            r@ == self@,
    {
        self.bytes
    }

    /// A well-formed frame starts with the header and holds three bytes
    /// per pixel written after it; once every pixel is written, that is
    /// `BODY_LEN` bytes of pixel data.
    pub proof fn lemma_frame_size(&self)
        requires
            self.wf(),
        ensures
            self@.subrange(0, HEADER_LEN as int) == header(),
            self.body().len() == 3 * self.written(),
            self.written() == PIXELS ==> self.body().len() == BODY_LEN,
    {
    }
}

} // verus!
