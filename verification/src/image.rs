//! Single-channel raster images.
//!
//! An image is a rectangular grid of same-typed pixel samples, held row by
//! row with no padding between rows (row-major: the row index varies slower
//! than the column index). The [`Image`] capability gives dimensions, indexed
//! reads and bulk reads; [`MutableImage`] adds indexed writes and bulk fill.
//! [`OwnedImage`] owns its buffer on the heap; [`MemoryMappedImage`] is the
//! read-only, validated decoding of the raw bytes of a file-backed mapping.

use vstd::prelude::*;
use crate::units::{DistPx, PX};

verus! {

/// The unsigned value of two little-endian bytes.
pub open spec fn le16(b0: u8, b1: u8) -> int {
    b0 + 0x100 * b1
}

/// The unsigned value of four little-endian bytes.
pub open spec fn le32(b0: u8, b1: u8, b2: u8, b3: u8) -> int {
    b0 + 0x100 * b1 + 0x1_0000 * b2 + 0x100_0000 * b3
}

/// The two's-complement value of two little-endian bytes.
pub open spec fn i16_le(b0: u8, b1: u8) -> int {
    if le16(b0, b1) < 0x8000 {
        le16(b0, b1)
    } else {
        le16(b0, b1) - 0x1_0000
    }
}

/// The two's-complement value of four little-endian bytes.
pub open spec fn i32_le(b0: u8, b1: u8, b2: u8, b3: u8) -> int {
    if le32(b0, b1, b2, b3) < 0x8000_0000 {
        le32(b0, b1, b2, b3)
    } else {
        le32(b0, b1, b2, b3) - 0x1_0000_0000
    }
}

/// One kind of pixel sample: a numeric value with a zero ("black"), stored
/// on disk as a fixed number of little-endian bytes.
pub trait Pixel: Sized + Copy {
    /// The numeric zero value.
    spec fn zero_spec() -> Self;

    /// Number of bytes of one stored sample.
    spec fn byte_width_spec() -> int;

    /// The sample stored in `bytes` (little-endian, `byte_width_spec()`
    /// bytes).
    spec fn decode_spec(bytes: Seq<u8>) -> Self;

    proof fn byte_width_facts()
        ensures
            1 <= Self::byte_width_spec() <= 8,
    ;

    fn zero() -> (r: Self)
        ensures
            r == Self::zero_spec(),
    ;

    fn byte_width() -> (r: usize)
        ensures
            r as int == Self::byte_width_spec(),
    ;

    /// Reads the sample stored at byte offset `off`.
    fn decode(bytes: &[u8], off: usize) -> (r: Self)
        requires
            off + Self::byte_width_spec() <= bytes@.len(),
        ensures
            r == Self::decode_spec(bytes@.subrange(off as int, off + Self::byte_width_spec())),
    ;
}

impl Pixel for i16 {
    open spec fn zero_spec() -> i16 {
        0i16
    }

    open spec fn byte_width_spec() -> int {
        2
    }

    open spec fn decode_spec(bytes: Seq<u8>) -> i16 {
        i16_le(bytes[0], bytes[1]) as i16
    }

    proof fn byte_width_facts() {
    }

    fn zero() -> i16 {
        0
    }

    fn byte_width() -> usize {
        2
    }

    fn decode(bytes: &[u8], off: usize) -> (r: i16) {
        let b0 = bytes[off];
        let b1 = bytes[off + 1];
        let u: u32 = (b0 as u32) + 0x100 * (b1 as u32);
        let s: i32 = if u >= 0x8000 {
            (u as i32) - 0x1_0000
        } else {
            u as i32
        };
        proof {
            assert(bytes@.subrange(off as int, off + 2)[0] == bytes@[off as int]);
            assert(bytes@.subrange(off as int, off + 2)[1] == bytes@[off + 1]);
        }
        s as i16
    }
}

impl Pixel for i32 {
    open spec fn zero_spec() -> i32 {
        0i32
    }

    open spec fn byte_width_spec() -> int {
        4
    }

    open spec fn decode_spec(bytes: Seq<u8>) -> i32 {
        i32_le(bytes[0], bytes[1], bytes[2], bytes[3]) as i32
    }

    proof fn byte_width_facts() {
    }

    fn zero() -> i32 {
        0
    }

    fn byte_width() -> usize {
        4
    }

    fn decode(bytes: &[u8], off: usize) -> (r: i32) {
        let b0 = bytes[off];
        let b1 = bytes[off + 1];
        let b2 = bytes[off + 2];
        let b3 = bytes[off + 3];
        let u: u64 = (b0 as u64) + 0x100 * (b1 as u64) + 0x1_0000 * (b2 as u64) + 0x100_0000 * (
        b3 as u64);
        let s: i64 = if u >= 0x8000_0000 {
            (u as i64) - 0x1_0000_0000
        } else {
            u as i64
        };
        proof {
            assert(bytes@.subrange(off as int, off + 4)[0] == bytes@[off as int]);
            assert(bytes@.subrange(off as int, off + 4)[1] == bytes@[off + 1]);
            assert(bytes@.subrange(off as int, off + 4)[2] == bytes@[off + 2]);
            assert(bytes@.subrange(off as int, off + 4)[3] == bytes@[off + 3]);
        }
        s as i32
    }
}

/// One 32-bit IEEE 754 sample, held as its raw bit pattern. The numeric
/// interpretation is never computed here: the grid stores, compares and
/// returns such samples bit for bit.
#[derive(Clone, Copy, PartialEq, Eq, Structural, Debug)]
pub struct F32Bits {
    pub bits: u32,
}

impl Pixel for F32Bits {
    open spec fn zero_spec() -> F32Bits {
        F32Bits { bits: 0 }
    }

    open spec fn byte_width_spec() -> int {
        4
    }

    open spec fn decode_spec(bytes: Seq<u8>) -> F32Bits {
        F32Bits { bits: le32(bytes[0], bytes[1], bytes[2], bytes[3]) as u32 }
    }

    proof fn byte_width_facts() {
    }

    fn zero() -> F32Bits {
        F32Bits { bits: 0 }
    }

    fn byte_width() -> usize {
        4
    }

    fn decode(bytes: &[u8], off: usize) -> (r: F32Bits) {
        let b0 = bytes[off];
        let b1 = bytes[off + 1];
        let b2 = bytes[off + 2];
        let b3 = bytes[off + 3];
        let u: u32 = (b0 as u32) + 0x100 * (b1 as u32) + 0x1_0000 * (b2 as u32) + 0x100_0000 * (
        b3 as u32);
        proof {
            assert(bytes@.subrange(off as int, off + 4)[0] == bytes@[off as int]);
            assert(bytes@.subrange(off as int, off + 4)[1] == bytes@[off + 1]);
            assert(bytes@.subrange(off as int, off + 4)[2] == bytes@[off + 2]);
            assert(bytes@.subrange(off as int, off + 4)[3] == bytes@[off + 3]);
        }
        F32Bits { bits: u }
    }
}

/// Any addressable two-dimensional grid of same-typed pixel samples:
/// dimensions, indexed reads, and bulk reads of the row-major buffer.
pub trait Image<P: Pixel> {
    spec fn width_spec(&self) -> int;

    spec fn height_spec(&self) -> int;

    /// The backing buffer, row-major and unpadded: the sample at column `x`
    /// of row `y` is element `y * width + x`.
    spec fn pixels_spec(&self) -> Seq<P>;

    /// Well-formed: dimensions are non-negative and the buffer holds exactly
    /// `width * height` samples.
    spec fn wf(&self) -> bool;

    proof fn wf_facts(&self)
        requires
            self.wf(),
        ensures
            0 <= self.width_spec(),
            0 <= self.height_spec(),
            self.pixels_spec().len() == self.width_spec() * self.height_spec(),
            self.pixels_spec().len() <= usize::MAX,
    ;

    /// The dimensions of the image; never fails.
    fn dimensions(&self) -> (r: (DistPx, DistPx))
        requires
            self.wf(),
        ensures
            r.0@ == self.width_spec(),
            r.1@ == self.height_spec(),
    ;

    /// The sample at column `x` of row `y`; callers stay in bounds.
    fn get(&self, x: DistPx, y: DistPx) -> (p: P)
        requires
            self.wf(),
            0 <= x@ < self.width_spec(),
            0 <= y@ < self.height_spec(),
        ensures
            p == self.pixels_spec()[y@ * self.width_spec() + x@],
    ;

    /// All the samples of the image in row-major order, without padding.
    fn pixels(&self) -> (r: &[P])
        requires
            self.wf(),
        ensures
            r@ == self.pixels_spec(),
    ;
}

/// The mutable extension of [`Image`]: indexed writes and bulk fill.
pub trait MutableImage<P: Pixel>: Image<P> {
    /// Overwrites the sample at column `x` of row `y`; callers stay in
    /// bounds. Dimensions do not change.
    fn set(&mut self, x: DistPx, y: DistPx, v: P)
        requires
            old(self).wf(),
            0 <= x@ < old(self).width_spec(),
            0 <= y@ < old(self).height_spec(),
        ensures
            final(self).wf(),
            final(self).width_spec() == old(self).width_spec(),
            final(self).height_spec() == old(self).height_spec(),
            final(self).pixels_spec() == old(self).pixels_spec().update(
                y@ * old(self).width_spec() + x@,
                v,
            ),
    ;

    /// Overwrites every sample of the image with `v`.
    fn fill(&mut self, v: P)
        requires
            old(self).wf(),
        ensures
            final(self).wf(),
            final(self).width_spec() == old(self).width_spec(),
            final(self).height_spec() == old(self).height_spec(),
            final(self).pixels_spec().len() == old(self).pixels_spec().len(),
            forall|i: int|
                0 <= i < final(self).pixels_spec().len() ==> final(self).pixels_spec()[i] == v,
    ;
}

/// In-bounds row-major offsets lie inside the buffer.
pub proof fn lemma_row_major_offset(w: int, h: int, x: int, y: int)
    by (nonlinear_arith)
    requires
        0 <= x < w,
        0 <= y < h,
    ensures
        0 <= y * w + x < w * h,
        y <= y * w + x,
        w <= w * h,
        h <= w * h,
{
}

/// Law: in a zero-initialized buffer, such as the one `OwnedImage::new`
/// builds, every in-bounds read yields the numeric zero value.
pub proof fn lemma_zero_image_reads_zero<P: Pixel>(pix: Seq<P>, w: int, h: int, x: int, y: int)
    requires
        0 <= x < w,
        0 <= y < h,
        pix.len() == w * h,
        forall|i: int| 0 <= i < pix.len() ==> pix[i] == P::zero_spec(),
    ensures
        pix[y * w + x] == P::zero_spec(),
{
    lemma_row_major_offset(w, h, x, y);
}

/// Law: writing a value at `(x, y)` through the mutable interface and
/// immediately reading `(x, y)` yields exactly that value, for every
/// in-bounds coordinate. `before.update(y * w + x, v)` is the buffer after
/// the write, as `set`'s contract states it, and indexing at
/// `y * w + x` is the read, as `get`'s contract states it.
pub proof fn lemma_write_then_read<P: Pixel>(
    before: Seq<P>,
    w: int,
    h: int,
    x: int,
    y: int,
    v: P,
)
    requires
        0 <= x < w,
        0 <= y < h,
        before.len() == w * h,
    ensures
        before.update(y * w + x, v)[y * w + x] == v,
{
    lemma_row_major_offset(w, h, x, y);
}

/// A potentially-mutable image that exclusively owns its pixel buffer.
pub struct OwnedImage<P: Pixel> {
    width: DistPx,
    height: DistPx,
    pixels: Vec<P>,
}

impl<P: Pixel> OwnedImage<P> {
    /// A zero-initialized image of `width` by `height` samples.
    pub fn new(width: DistPx, height: DistPx) -> (r: OwnedImage<P>)
        requires
            0 <= width@ <= usize::MAX,
            0 <= height@ <= usize::MAX,
            width@ * height@ <= usize::MAX,
        ensures
            r.wf(),
            r.width_spec() == width@,
            r.height_spec() == height@,
            forall|i: int|
                0 <= i < r.pixels_spec().len() ==> r.pixels_spec()[i] == P::zero_spec(),
    {
        let w = width.per(PX) as usize;
        let h = height.per(PX) as usize;
        let size = w * h;
        let mut pixels: Vec<P> = Vec::new();
        while pixels.len() < size
            invariant
                pixels@.len() <= size,
                forall|i: int| 0 <= i < pixels@.len() ==> pixels@[i] == P::zero_spec(),
            decreases size - pixels@.len(),
        {
            pixels.push(P::zero());
        }
        OwnedImage { width, height, pixels }
    }
}

impl<P: Pixel> Image<P> for OwnedImage<P> {
    closed spec fn width_spec(&self) -> int {
        self.width@
    }

    closed spec fn height_spec(&self) -> int {
        self.height@
    }

    closed spec fn pixels_spec(&self) -> Seq<P> {
        self.pixels@
    }

    closed spec fn wf(&self) -> bool {
        &&& 0 <= self.width@
        &&& 0 <= self.height@
        &&& self.pixels@.len() == self.width@ * self.height@
        &&& self.pixels@.len() <= usize::MAX
    }

    proof fn wf_facts(&self) {
    }

    fn dimensions(&self) -> (r: (DistPx, DistPx)) {
        (self.width, self.height)
    }

    fn get(&self, x: DistPx, y: DistPx) -> (p: P) {
        proof {
            lemma_row_major_offset(self.width@, self.height@, x@, y@);
        }
        let offset = (y.per(PX) as usize) * (self.width.per(PX) as usize) + (x.per(PX) as usize);
        self.pixels[offset]
    }

    fn pixels(&self) -> (r: &[P]) {
        self.pixels.as_slice()
    }
}

impl<P: Pixel> MutableImage<P> for OwnedImage<P> {
    fn set(&mut self, x: DistPx, y: DistPx, v: P) {
        proof {
            lemma_row_major_offset(self.width@, self.height@, x@, y@);
        }
        let offset = (y.per(PX) as usize) * (self.width.per(PX) as usize) + (x.per(PX) as usize);
        self.pixels[offset] = v;
    }

    fn fill(&mut self, v: P) {
        let len = self.pixels.len();
        let mut i: usize = 0;
        while i < len
            invariant
                i <= len,
                len == self.pixels@.len(),
                self.width == old(self).width,
                self.height == old(self).height,
                self.pixels@.len() == old(self).pixels@.len(),
                forall|j: int| 0 <= j < i ==> self.pixels@[j] == v,
            decreases len - i,
        {
            self.pixels[i] = v;
            i = i + 1;
        }
    }
}

/// Why construction of a file-backed image failed before any image was
/// produced.
#[derive(Clone, Copy, PartialEq, Eq, Structural, Debug)]
pub enum MapError {
    /// The byte length of the backing file does not equal
    /// `width * height * size_of::<pixel>()`.
    SizeMismatch,
}

/// A read-only image whose samples were decoded out of the raw bytes of a
/// memory-mapped file. The mapping itself lives outside this crate; what
/// arrives here is its full byte content, which is validated against the
/// declared dimensions and decoded sample by sample — never reinterpreted by
/// an unchecked cast.
pub struct MemoryMappedImage<P: Pixel> {
    width: DistPx,
    height: DistPx,
    pixels: Vec<P>,
}

impl<P: Pixel> MemoryMappedImage<P> {
    /// Builds the image from the byte content of a mapped file and the
    /// declared dimensions. Fails with [`MapError::SizeMismatch`] exactly
    /// when the byte length differs from `width * height` samples of
    /// `P::byte_width()` bytes each; on success, sample `i` of the row-major
    /// grid is decoded from bytes `i * byte_width .. (i + 1) * byte_width`.
    pub fn from_bytes(bytes: &[u8], width: DistPx, height: DistPx) -> (r: Result<
        MemoryMappedImage<P>,
        MapError,
    >)
        requires
            0 <= width@ <= usize::MAX,
            0 <= height@ <= usize::MAX,
        ensures
            match r {
                Ok(img) => {
                    &&& bytes@.len() == width@ * height@ * P::byte_width_spec()
                    &&& img.wf()
                    &&& img.width_spec() == width@
                    &&& img.height_spec() == height@
                    &&& img.pixels_spec().len() == width@ * height@
                    &&& forall|i: int|
                        0 <= i < img.pixels_spec().len() ==> img.pixels_spec()[i]
                            == P::decode_spec(
                            bytes@.subrange(
                                i * P::byte_width_spec(),
                                (i + 1) * P::byte_width_spec(),
                            ),
                        )
                },
                Err(e) => {
                    &&& e == MapError::SizeMismatch
                    &&& bytes@.len() != width@ * height@ * P::byte_width_spec()
                },
            },
    {
        proof {
            P::byte_width_facts();
        }
        let w = width.per(PX) as usize;
        let h = height.per(PX) as usize;
        let bw = P::byte_width();
        let len = bytes.len();
        let count = match w.checked_mul(h) {
            Some(c) => c,
            None => {
                proof {
                    assert(len < w * h * bw) by (nonlinear_arith)
                        requires
                            len <= usize::MAX,
                            usize::MAX < w * h,
                            1 <= bw,
                    ;
                }
                return Err(MapError::SizeMismatch);
            },
        };
        let expected = match count.checked_mul(bw) {
            Some(e) => e,
            None => {
                proof {
                    assert(w * h * bw == count * bw);
                }
                return Err(MapError::SizeMismatch);
            },
        };
        proof {
            assert(w * h * bw == expected);
        }
        if len != expected {
            return Err(MapError::SizeMismatch);
        }
        let mut pixels: Vec<P> = Vec::new();
        let mut i: usize = 0;
        while i < count
            invariant
                i <= count,
                pixels@.len() == i,
                bw as int == P::byte_width_spec(),
                1 <= bw,
                count * bw == bytes@.len(),
                bytes@.len() <= usize::MAX,
                forall|j: int|
                    0 <= j < i ==> pixels@[j] == P::decode_spec(
                        bytes@.subrange(j * bw, (j + 1) * bw),
                    ),
            decreases count - i,
        {
            proof {
                assert(i * bw + bw <= count * bw) by (nonlinear_arith)
                    requires
                        i + 1 <= count,
                        0 <= bw,
                ;
                assert((i + 1) * bw == i * bw + bw) by (nonlinear_arith);
            }
            let off = i * bw;
            pixels.push(P::decode(bytes, off));
            i = i + 1;
        }
        Ok(MemoryMappedImage { width, height, pixels })
    }
}

impl<P: Pixel> Image<P> for MemoryMappedImage<P> {
    closed spec fn width_spec(&self) -> int {
        self.width@
    }

    closed spec fn height_spec(&self) -> int {
        self.height@
    }

    closed spec fn pixels_spec(&self) -> Seq<P> {
        self.pixels@
    }

    closed spec fn wf(&self) -> bool {
        &&& 0 <= self.width@
        &&& 0 <= self.height@
        &&& self.pixels@.len() == self.width@ * self.height@
        &&& self.pixels@.len() <= usize::MAX
    }

    proof fn wf_facts(&self) {
    }

    fn dimensions(&self) -> (r: (DistPx, DistPx)) {
        (self.width, self.height)
    }

    fn get(&self, x: DistPx, y: DistPx) -> (p: P) {
        proof {
            lemma_row_major_offset(self.width@, self.height@, x@, y@);
        }
        let offset = (y.per(PX) as usize) * (self.width.per(PX) as usize) + (x.per(PX) as usize);
        self.pixels[offset]
    }

    fn pixels(&self) -> (r: &[P]) {
        self.pixels.as_slice()
    }
}

} // verus!
