//! Pixel-format tags and capture formats.

use vstd::prelude::*;
use vstd::std_specs::convert::FromSpecImpl;
use vstd::utf8::{decode_utf8, valid_utf8};
use crate::engine::text;

verus! {

/// Four character code representing a pixelformat.
///
/// The four bytes and the 32-bit code determine each other: byte 0 is the
/// least significant byte of the code.
#[derive(Debug, Copy, Clone, Eq)]
pub struct FourCC {
    pub repr: [u8; 4],
}

/// The byte of `code` at position `i`, counted from the least significant.
pub open spec fn byte_of(code: u32, i: int) -> u8 {
    if i == 0 {
        (code % 256) as u8
    } else if i == 1 {
        ((code / 256) % 256) as u8
    } else if i == 2 {
        ((code / 65536) % 256) as u8
    } else {
        ((code / 16777216) % 256) as u8
    }
}

/// The code whose bytes, least significant first, are `b0`, `b1`, `b2`, `b3`.
pub open spec fn code_of(b0: u8, b1: u8, b2: u8, b3: u8) -> u32 {
    (b0 + 256 * b1 + 65536 * b2 + 16777216 * b3) as u32
}

/// Splitting a code into bytes and joining them again gives the code back.
pub proof fn lemma_code_of_bytes(code: u32)
    ensures
        code_of(byte_of(code, 0), byte_of(code, 1), byte_of(code, 2), byte_of(code, 3)) == code,
{
    let q1: u32 = code / 256;
    let q2: u32 = code / 65536;
    let q3: u32 = code / 16777216;
    assert(code == code % 256 + 256 * q1);
    assert(q2 == q1 / 256 && q1 == q1 % 256 + 256 * q2);
    assert(q3 == q2 / 256 && q2 == q2 % 256 + 256 * q3);
    assert(q3 < 256);
}

/// Joining four bytes into a code and splitting it again gives the bytes back.
pub proof fn lemma_bytes_of_code(b0: u8, b1: u8, b2: u8, b3: u8)
    ensures
        byte_of(code_of(b0, b1, b2, b3), 0) == b0,
        byte_of(code_of(b0, b1, b2, b3), 1) == b1,
        byte_of(code_of(b0, b1, b2, b3), 2) == b2,
        byte_of(code_of(b0, b1, b2, b3), 3) == b3,
{
    let c: int = b0 + 256 * b1 + 65536 * b2 + 16777216 * b3;
    assert(code_of(b0, b1, b2, b3) == c);
    let k1: int = b1 + 256 * b2 + 65536 * b3;
    let k2: int = b2 + 256 * b3;
    assert(c == b0 + 256 * k1);
    assert(c % 256 == b0 && c / 256 == k1);
    assert(k1 % 256 == b1);
    assert(c == (b0 + 256 * b1) + 65536 * k2);
    assert(c / 65536 == k2);
    assert(k2 % 256 == b2);
    assert(c == (b0 + 256 * b1 + 65536 * b2) + 16777216 * b3);
    assert(c / 16777216 == b3);
}

impl PartialEq for FourCC {
    fn eq(&self, other: &FourCC) -> (same: bool) {
        let same = self.repr[0] == other.repr[0] && self.repr[1] == other.repr[1] && self.repr[2]
            == other.repr[2] && self.repr[3] == other.repr[3];
        proof {
            if same {
                assert(self.repr =~= other.repr);
            }
        }
        same
    }
}

impl vstd::std_specs::cmp::PartialEqSpecImpl for FourCC {
    open spec fn obeys_eq_spec() -> bool {
        true
    }

    open spec fn eq_spec(&self, other: &FourCC) -> bool {
        self.repr == other.repr
    }
}

impl FourCC {
    /// The integer representation, as a mathematical value.
    pub open spec fn code(&self) -> u32 {
        code_of(self.repr[0], self.repr[1], self.repr[2], self.repr[3])
    }

    /// The tag whose integer representation is `code`.
    pub open spec fn of_code(code: u32) -> FourCC {
        FourCC { repr: [byte_of(code, 0), byte_of(code, 1), byte_of(code, 2), byte_of(code, 3)] }
    }

    /// Returns a pixelformat as four character code.
    pub fn new(repr: &[u8; 4]) -> (tag: FourCC)
        ensures
            tag.repr == *repr,
    {
        FourCC { repr: *repr }
    }

    /// Returns the integer representation.
    pub fn as_u32(&self) -> (code: u32)
        ensures
            code == self.code(),
    {
        let b0: u32 = self.repr[0] as u32;
        let b1: u32 = self.repr[1] as u32;
        let b2: u32 = self.repr[2] as u32;
        let b3: u32 = self.repr[3] as u32;
        assert((b3 << 24) | (b2 << 16) | (b1 << 8) | b0 == b0 + 256 * b1 + 65536 * b2 + 16777216
            * b3) by (bit_vector)
            requires
                b0 < 256,
                b1 < 256,
                b2 < 256,
                b3 < 256,
        ;
        (b3 << 24) | (b2 << 16) | (b1 << 8) | b0
    }

    /// The tag as text: its four bytes read as UTF-8, or the empty string
    /// where they are no valid UTF-8.
    pub fn to_text(&self) -> (text: String)
        ensures
            valid_utf8(self.repr@) ==> text@ == decode_utf8(self.repr@),
            !valid_utf8(self.repr@) ==> text@ == Seq::<char>::empty(),
    {
        match text(self.repr.as_slice()) {
            Some(text) => text,
            None => String::new(),
        }
    }
}

impl Default for FourCC {
    /// The unspecified tag: four zero bytes.
    fn default() -> (tag: FourCC)
        ensures
            tag.repr@ == seq![0u8, 0u8, 0u8, 0u8],
            tag.code() == 0,
    {
        let tag = FourCC { repr: [0u8, 0u8, 0u8, 0u8] };
        assert(tag.repr@ =~= seq![0u8, 0u8, 0u8, 0u8]);
        tag
    }
}

impl From<u32> for FourCC {
    fn from(code: u32) -> (tag: FourCC) {
        let b0: u8 = (code & 0xff) as u8;
        let b1: u8 = ((code >> 8) & 0xff) as u8;
        let b2: u8 = ((code >> 16) & 0xff) as u8;
        let b3: u8 = ((code >> 24) & 0xff) as u8;
        assert(code & 0xff == code % 256) by (bit_vector);
        assert((code >> 8) & 0xff == (code / 256) % 256) by (bit_vector);
        assert((code >> 16) & 0xff == (code / 65536) % 256) by (bit_vector);
        assert((code >> 24) & 0xff == (code / 16777216) % 256) by (bit_vector);
        let tag = FourCC { repr: [b0, b1, b2, b3] };
        assert(tag.repr =~= FourCC::of_code(code).repr);
        tag
    }
}

impl FromSpecImpl<u32> for FourCC {
    open spec fn obeys_from_spec() -> bool {
        true
    }

    open spec fn from_spec(code: u32) -> FourCC {
        FourCC::of_code(code)
    }
}

/// Every 32-bit code survives the way through a tag and back.
pub proof fn lemma_code_round_trip(code: u32)
    ensures
        FourCC::of_code(code).code() == code,
{
    lemma_code_of_bytes(code);
}

/// Every tag survives the way through its 32-bit code and back: the four
/// bytes come out as they went in.
pub proof fn lemma_tag_round_trip(tag: FourCC)
    ensures
        FourCC::of_code(tag.code()) == tag,
{
    lemma_bytes_of_code(tag.repr[0], tag.repr[1], tag.repr[2], tag.repr[3]);
    assert(FourCC::of_code(tag.code()).repr =~= tag.repr);
}

/// A format as the engine reports it: the fields of its format record, with
/// the pixelformat still a 32-bit code.
#[derive(Debug, Copy, Clone, PartialEq, Eq, Structural)]
pub struct FormatInfo {
    pub width: u32,
    pub height: u32,
    pub fourcc: u32,
    pub fps: u32,
    pub bpp: u32,
}

/// Capture format.
///
/// A zero in `fourcc` or `fps` means "no preference", a zero in `bpp` means
/// "not set".
#[derive(Debug, Copy, Clone)]
pub struct Format {
    /// Width in pixels
    pub width: u32,
    /// Height in pixels
    pub height: u32,
    /// Pixelformat
    pub fourcc: FourCC,
    /// Frames per second
    pub fps: u32,
    /// Bits per pixel
    pub bpp: u32,
}

impl Format {
    /// The format with every field zero.
    pub open spec fn zero() -> Format {
        Format { width: 0, height: 0, fourcc: FourCC::of_code(0), fps: 0, bpp: 0 }
    }

    /// The format that stands for an engine record.
    pub open spec fn of_info(info: FormatInfo) -> Format {
        Format {
            width: info.width,
            height: info.height,
            fourcc: FourCC::of_code(info.fourcc),
            fps: info.fps,
            bpp: info.bpp,
        }
    }

    /// The size in bytes of one decoded frame: three bytes for each pixel.
    pub open spec fn frame_bytes(&self) -> int {
        self.height * self.width * 3
    }

    /// The size in bytes of one decoded frame, where a `u32` can hold it.
    pub fn frame_len(&self) -> (len: Option<u32>)
        ensures
            self.frame_bytes() <= u32::MAX ==> len == Some(self.frame_bytes() as u32),
            self.frame_bytes() > u32::MAX ==> len is None,
    {
        assert(self.height * self.width <= 0xffff_ffff * 0xffff_ffff) by (nonlinear_arith)
            requires
                self.height <= 0xffff_ffff,
                self.width <= 0xffff_ffff,
        ;
        let pixels: u64 = (self.height as u64) * (self.width as u64);
        let bytes: u128 = (pixels as u128) * 3;
        if bytes <= 0xffff_ffff {
            Some(bytes as u32)
        } else {
            None
        }
    }

    /// This format with the bits per pixel derived from its geometry where
    /// they are not set: the size of one decoded frame.
    pub open spec fn resolved(self) -> Format {
        if self.bpp == 0 {
            Format { bpp: self.frame_bytes() as u32, ..self }
        } else {
            self
        }
    }

    /// Builder: sets the width in pixels
    pub fn width(self, width: u32) -> (format: Format)
        ensures
            format == (Format { width, ..self }),
    {
        let mut format = self;
        format.width = width;
        format
    }

    /// Builder: sets the height in pixels
    pub fn height(self, height: u32) -> (format: Format)
        ensures
            format == (Format { height, ..self }),
    {
        let mut format = self;
        format.height = height;
        format
    }

    /// Builder: sets the pixelformat (buffers are automatically converted into RGB24)
    pub fn fourcc(self, fourcc: FourCC) -> (format: Format)
        ensures
            format == (Format { fourcc, ..self }),
    {
        let mut format = self;
        format.fourcc = fourcc;
        format
    }

    /// Builder: sets the frames per second
    pub fn fps(self, fps: u32) -> (format: Format)
        ensures
            format == (Format { fps, ..self }),
    {
        let mut format = self;
        format.fps = fps;
        format
    }
}

impl Default for Format {
    /// The format with no preference: every field zero.
    fn default() -> (format: Format)
        ensures
            format == Format::zero(),
    {
        let fourcc = FourCC::from(0u32);
        Format { width: 0, height: 0, fourcc, fps: 0, bpp: 0 }
    }
}

impl From<FormatInfo> for Format {
    fn from(val: FormatInfo) -> (format: Format) {
        Format {
            width: val.width,
            height: val.height,
            fourcc: FourCC::from(val.fourcc),
            fps: val.fps,
            bpp: val.bpp,
        }
    }
}

impl FromSpecImpl<FormatInfo> for Format {
    open spec fn obeys_from_spec() -> bool {
        true
    }

    open spec fn from_spec(val: FormatInfo) -> Format {
        Format::of_info(val)
    }
}

} // verus!
