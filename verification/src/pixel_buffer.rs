//! Pixel layouts: how one colour becomes the bytes of a buffer.
use crate::color::PixelRgb;
use crate::flt::{lemma_abs_ignores_sign, Flt, BYTE_MAX};
use vstd::prelude::*;

verus! {

/// Turns one colour component into a byte.
pub trait ToColor8: Sized {
    /// The byte of the component.
    spec fn color_u8(self) -> u8;

    /// The byte of the component.
    fn to_color_u8clamped(self) -> (c: u8)
        ensures
            c == self.color_u8(),
    ;
}

impl ToColor8 for Flt {
    /// The absolute value times 255, cut to an integer and held to 0..=255.
    /// A negative component counts as its positive mirror.
    open spec fn color_u8(self) -> u8 {
        self.abs_spec().times_spec(Flt { bits: BYTE_MAX }).to_u8_spec()
    }

    fn to_color_u8clamped(self) -> (c: u8) {
        self.abs().times(Flt { bits: BYTE_MAX }).to_u8()
    }
}

/// A component and its negation give the same byte: what falls below zero
/// is mirrored, not cut off.
pub proof fn lemma_color_ignores_sign(c: Flt)
    ensures
        c.neg_spec().color_u8() == c.color_u8(),
{
    lemma_abs_ignores_sign(c);
}

/// The 16-bit word of three bytes: the upper five bits of red, the upper six
/// of green and the upper five of blue, in this order from the top.
pub open spec fn rgb565(r: u8, g: u8, b: u8) -> int {
    (r / 8) * 2048 + (g / 4) * 32 + (b / 8)
}

/// The two bytes of the 16-bit word, upper byte first.
pub open spec fn rgb565_bytes(pixel: PixelRgb) -> Seq<u8> {
    let word = rgb565(pixel.r.color_u8(), pixel.g.color_u8(), pixel.b.color_u8());
    seq![(word / 256) as u8, (word % 256) as u8]
}

/// `line` with `bytes` laid over it from index `at` on, up to but not
/// including index `end`.
pub open spec fn overlaid(line: Seq<u8>, at: int, end: int, bytes: Seq<u8>) -> Seq<u8> {
    Seq::new(
        line.len(),
        |k: int|
            if at <= k < at + bytes.len() && k < end {
                bytes[k - at]
            } else {
                line[k]
            },
    )
}

/// A pixel layout: the number of bytes of one pixel, and the bytes of a
/// colour.
pub trait PixelBuffer {
    /// How many bytes one pixel takes.
    const PIXEL_BYTES: usize;

    /// The bytes of one pixel of the given colour.
    spec fn encoded(pixel: PixelRgb) -> Seq<u8>;

    /// Every colour takes `PIXEL_BYTES` bytes, which are between 1 and 4.
    proof fn lemma_encoded_len(pixel: PixelRgb)
        ensures
            Self::encoded(pixel).len() == Self::PIXEL_BYTES,
            1 <= Self::PIXEL_BYTES <= 4,
    ;

    /// Writes the bytes of `pixel` into `buffer` from index `at` on and
    /// hands back the index behind them. The line that is written ends
    /// before index `end`: bytes that would fall at or behind it are dropped.
    fn put_pixel(buffer: &mut [u8], at: usize, end: usize, pixel: PixelRgb) -> (next: usize)
        requires
            at <= end <= old(buffer)@.len(),
        ensures
            final(buffer)@ == overlaid(old(buffer)@, at as int, end as int, Self::encoded(pixel)),
            next == if at + Self::PIXEL_BYTES <= end {
                at + Self::PIXEL_BYTES
            } else {
                end as int
            },
    ;
}

/// Lays the first `count` of four bytes over `buffer` from index `at` on,
/// stopping before index `end`.
fn write_bytes(buffer: &mut [u8], at: usize, end: usize, bytes: [u8; 4], count: usize) -> (next:
    usize)
    requires
        at <= end <= old(buffer)@.len(),
        1 <= count <= 4,
    ensures
        final(buffer)@ == overlaid(old(buffer)@, at as int, end as int, bytes@.take(count as int)),
        next == if at + count <= end {
            at + count
        } else {
            end as int
        },
{
    let mut k: usize = 0;
    while k < count && at + k < end
        invariant
            k <= count <= 4,
            at + k <= end <= buffer@.len(),
            buffer@.len() == old(buffer)@.len(),
            buffer@ == overlaid(old(buffer)@, at as int, end as int, bytes@.take(k as int)),
        decreases count - k,
    {
        buffer[at + k] = bytes[k];
        k = k + 1;
        assert(buffer@ =~= overlaid(old(buffer)@, at as int, end as int, bytes@.take(k as int)));
    }
    assert(buffer@ =~= overlaid(
        old(buffer)@,
        at as int,
        end as int,
        bytes@.take(count as int),
    ));
    at + k
}

/// Three bytes a pixel: red, green, blue.
pub struct PixelBufRGB24;

/// Four bytes a pixel: red, green, blue and an alpha byte that is always 255.
pub struct PixelBufRGBA32;

/// Two bytes a pixel: five bits of red, six of green, five of blue, upper
/// byte first.
pub struct PixelBufRGB16;

/// Four bytes a pixel: the two bytes of `PixelBufRGB16` twice, so that one
/// colour fills two neighbouring pixels of the buffer.
pub struct PixelBufRGB16x2;

fn pack_rgb565(pixel: PixelRgb) -> (bytes: (u8, u8))
    ensures
        seq![bytes.0, bytes.1] == rgb565_bytes(pixel),
{
    let r: u8 = pixel.r.to_color_u8clamped();
    let g: u8 = pixel.g.to_color_u8clamped();
    let b: u8 = pixel.b.to_color_u8clamped();
    let word: u16 = (((r & 0xf8) as u16) << 8) | (((g & 0xfc) as u16) << 3) | (((b & 0xf8) as u16)
        >> 3);
    assert(word == (r / 8) * 2048 + (g / 4) * 32 + (b / 8)) by (bit_vector)
        requires
            word == (((r & 0xf8) as u16) << 8) | (((g & 0xfc) as u16) << 3) | (((b & 0xf8) as u16)
                >> 3),
    ;
    let high: u8 = (word >> 8) as u8;
    let low: u8 = (word & 0xff) as u8;
    assert(high == (word / 256) as u8 && low == (word % 256) as u8) by (bit_vector)
        requires
            high == (word >> 8) as u8,
            low == (word & 0xff) as u8,
    ;
    assert(seq![high, low] =~= rgb565_bytes(pixel));
    (high, low)
}

impl PixelBuffer for PixelBufRGB24 {
    const PIXEL_BYTES: usize = 3;

    open spec fn encoded(pixel: PixelRgb) -> Seq<u8> {
        seq![pixel.r.color_u8(), pixel.g.color_u8(), pixel.b.color_u8()]
    }

    proof fn lemma_encoded_len(pixel: PixelRgb) {
    }

    fn put_pixel(buffer: &mut [u8], at: usize, end: usize, pixel: PixelRgb) -> (next: usize) {
        let bytes: [u8; 4] = [
            pixel.r.to_color_u8clamped(),
            pixel.g.to_color_u8clamped(),
            pixel.b.to_color_u8clamped(),
            0,
        ];
        assert(bytes@.take(3) =~= Self::encoded(pixel));
        write_bytes(buffer, at, end, bytes, 3)
    }
}

impl PixelBuffer for PixelBufRGBA32 {
    const PIXEL_BYTES: usize = 4;

    open spec fn encoded(pixel: PixelRgb) -> Seq<u8> {
        seq![pixel.r.color_u8(), pixel.g.color_u8(), pixel.b.color_u8(), 255u8]
    }

    proof fn lemma_encoded_len(pixel: PixelRgb) {
    }

    fn put_pixel(buffer: &mut [u8], at: usize, end: usize, pixel: PixelRgb) -> (next: usize) {
        let bytes: [u8; 4] = [
            pixel.r.to_color_u8clamped(),
            pixel.g.to_color_u8clamped(),
            pixel.b.to_color_u8clamped(),
            255,
        ];
        assert(bytes@.take(4) =~= Self::encoded(pixel));
        write_bytes(buffer, at, end, bytes, 4)
    }
}

impl PixelBuffer for PixelBufRGB16 {
    const PIXEL_BYTES: usize = 2;

    open spec fn encoded(pixel: PixelRgb) -> Seq<u8> {
        rgb565_bytes(pixel)
    }

    proof fn lemma_encoded_len(pixel: PixelRgb) {
    }

    fn put_pixel(buffer: &mut [u8], at: usize, end: usize, pixel: PixelRgb) -> (next: usize) {
        let (high, low) = pack_rgb565(pixel);
        let bytes: [u8; 4] = [high, low, 0, 0];
        assert(bytes@.take(2) =~= seq![high, low]);
        write_bytes(buffer, at, end, bytes, 2)
    }
}

impl PixelBuffer for PixelBufRGB16x2 {
    const PIXEL_BYTES: usize = 4;

    open spec fn encoded(pixel: PixelRgb) -> Seq<u8> {
        rgb565_bytes(pixel) + rgb565_bytes(pixel)
    }

    proof fn lemma_encoded_len(pixel: PixelRgb) {
    }

    fn put_pixel(buffer: &mut [u8], at: usize, end: usize, pixel: PixelRgb) -> (next: usize) {
        let (high, low) = pack_rgb565(pixel);
        let bytes: [u8; 4] = [high, low, high, low];
        assert(bytes@.take(4) =~= seq![high, low] + seq![high, low]);
        write_bytes(buffer, at, end, bytes, 4)
    }
}

} // verus!
