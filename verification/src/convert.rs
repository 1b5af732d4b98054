//! The format-conversion layer's verified shape: parsing the container,
//! decoding the raw samples, and the exact geometry of the naive linear
//! resampler — how long the output is and which source samples each
//! output sample interpolates between. The floating-point mixing itself
//! runs outside the library on the positions computed here.

use vstd::prelude::*;

use vstd::arithmetic::div_mod::lemma_fundamental_div_mod_converse;
use vstd::bytes::{spec_u32_from_le_bytes, u32_from_le_bytes};
use vstd::slice::slice_subrange;

use crate::transcribe::TranscribeError;
use crate::wav::{parse_chunks, parse_fmt_body, parse_wav, spec_parse_wav, WavSpec};

verus! {

/// The rate the speech models expect.
pub const TARGET_RATE: u32 = 16000;

/// The verified shape of one conversion: where the sample bytes lie in
/// the container, how many samples and frames they hold, and how long the
/// output is after resampling to the target rate.
pub struct AudioLayout {
    /// The parsed format descriptor.
    pub spec: WavSpec,
    /// Offset of the sample bytes inside the container.
    pub data_off: usize,
    /// Length of the sample bytes.
    pub data_len: usize,
    /// Whole samples held in the data chunk.
    pub samples: usize,
    /// Frames: one sample per channel.
    pub frames: usize,
    /// Output samples after resampling the frames to the target rate.
    pub out_len: u64,
}

/// Output length of the resampler: `round(len * to / from)`, and exactly
/// `len` when the rates agree.
pub open spec fn resampled_len_spec(len: int, from: int, to: int) -> int {
    if from == to {
        len
    } else {
        (2 * len * to + from) / (2 * from)
    }
}

/// Computes the resampler's output length.
pub fn resampled_len(len: usize, from: u32, to: u32) -> (r: u64)
    requires
        1 <= from,
        1 <= to,
        len <= 0xffff_ffff,
        to <= 0x10_0000,
    ensures
        r == resampled_len_spec(len as int, from as int, to as int),
{
    if from == to {
        return len as u64;
    }
    let len64 = len as u64;
    let to64 = to as u64;
    proof {
        assert((2 * len64) * to64 <= 0x1_ffff_fffe * 0x10_0000) by (nonlinear_arith)
            requires
                len64 <= 0xffff_ffff,
                to64 <= 0x10_0000,
        ;
    }
    let n: u64 = 2 * len64 * to64 + (from as u64);
    let d: u64 = 2 * (from as u64);
    n / d
}

/// Where output sample `i` reads from: the source position `i * from /
/// to` as its floor index and the fractional remainder over `to`. A zero
/// remainder means the output sample is the source sample itself; the
/// mixing outside the library interpolates between the floor index and
/// its successor with weight `remainder / to`.
pub fn source_position(i: usize, from: u32, to: u32) -> (r: (u64, u32))
    requires
        1 <= to,
        i <= 0xffff_ffff,
    ensures
        r.0 == (i as int) * (from as int) / (to as int),
        r.1 == (i as int) * (from as int) % (to as int),
        r.1 < to,
{
    let i64v = i as u64;
    let from64 = from as u64;
    proof {
        assert(i64v * from64 <= 0xffff_ffff * 0xffff_ffff) by (nonlinear_arith)
            requires
                i64v <= 0xffff_ffff,
                from64 <= 0xffff_ffff,
        ;
    }
    let prod: u64 = i64v * from64;
    (prod / (to as u64), (prod % (to as u64)) as u32)
}

/// Resampling at the source rate is the identity selection: the output
/// has the input's length, and every output sample reads its own index
/// exactly, with no fractional part — so the converter leaves audio that
/// is already at the target rate unchanged.
pub proof fn lemma_resample_identity(len: int, rate: int)
    requires
        0 <= len,
        1 <= rate,
    ensures
        resampled_len_spec(len, rate, rate) == len,
        forall|i: int| 0 <= i ==> #[trigger] (i * rate / rate) == i && i * rate % rate == 0,
{
    assert forall|i: int| 0 <= i implies #[trigger] (i * rate / rate) == i && i * rate % rate
        == 0 by {
        lemma_fundamental_div_mod_converse(i * rate, rate, i, 0);
    }
}

/// The little-endian value of the bytes.
pub open spec fn le_value(b: Seq<u8>) -> int
    decreases b.len(),
{
    if b.len() == 0 {
        0
    } else {
        b[0] + 256 * le_value(b.drop_first())
    }
}

/// The signed value of sample `i` in the data bytes at the given width:
/// little-endian; two's complement at 2, 3 and 4 bytes; offset-binary at
/// 1 byte, the container convention for 8-bit audio.
pub open spec fn int_sample_spec(data: Seq<u8>, width: int, i: int) -> int {
    let raw = le_value(data.subrange(i * width, i * width + width));
    if width == 1 {
        raw - 128
    } else {
        let half = pow256(width) / 2;
        if raw >= half {
            raw - pow256(width)
        } else {
            raw
        }
    }
}

/// 256 to the power `w`.
pub open spec fn pow256(w: int) -> int
    decreases w,
{
    if w <= 0 {
        1
    } else {
        256 * pow256(w - 1)
    }
}

fn le_value_at(data: &Vec<u8>, off: usize, width: usize) -> (r: u64)
    requires
        off + width <= data@.len(),
        width <= 4,
    ensures
        r == le_value(data@.subrange(off as int, off as int + width as int)),
        r < pow256(width as int),
{
    let _len = data.len();
    let mut r: u64 = 0;
    let mut mult: u64 = 1;
    let mut j: usize = 0;
    while j < width
        invariant
            j <= width,
            width <= 4,
            off + width <= data@.len(),
            data@.len() <= usize::MAX,
            mult == pow256(j as int),
            mult <= 0x1_0000_0000,
            r < mult,
            le_value(data@.subrange(off as int, off as int + width as int)) == r + mult * le_value(
                data@.subrange(off as int + j as int, off as int + width as int),
            ),
        decreases width - j,
    {
        let b = data[off + j];
        proof {
            reveal_with_fuel(pow256, 6);
            assert(j == 0 || j == 1 || j == 2 || j == 3);
            assert(mult <= 0x100_0000);
            let tail = data@.subrange(off as int + j as int, off as int + width as int);
            assert(tail.len() > 0);
            assert(tail[0] == data@[off as int + j as int]);
            assert(tail.drop_first() =~= data@.subrange(
                off as int + j as int + 1,
                off as int + width as int,
            ));
            assert(mult * (tail[0] + 256 * le_value(tail.drop_first())) == mult * tail[0] + (mult
                * 256) * le_value(tail.drop_first())) by (nonlinear_arith);
            assert(r + mult * (b as u64) < mult * 256) by (nonlinear_arith)
                requires
                    r < mult,
                    b <= 255,
                    mult >= 1,
            ;
        }
        r = r + mult * (b as u64);
        mult = mult * 256;
        j = j + 1;
    }
    proof {
        let tail = data@.subrange(off as int + width as int, off as int + width as int);
        assert(tail.len() == 0);
        assert(le_value(tail) == 0);
        assert(mult * 0 == 0) by (nonlinear_arith);
    }
    r
}

/// Decodes the integer PCM samples in `data[off .. off + len]` at the
/// given sample width. Trailing bytes that do not fill a whole sample
/// are ignored.
pub fn read_int_samples(data: &Vec<u8>, off: usize, len: usize, width: usize) -> (r: Vec<i32>)
    requires
        off + len <= data@.len(),
        1 <= width <= 4,
    ensures
        r@.len() == len as int / width as int,
        forall|i: int|
            0 <= i < r@.len() ==> r@[i] == int_sample_spec(
                data@.subrange(off as int, off as int + len as int),
                width as int,
                i,
            ),
{
    let _len = data.len();
    let count = len / width;
    let mut out: Vec<i32> = Vec::new();
    let mut i: usize = 0;
    let ghost chunk = data@.subrange(off as int, off as int + len as int);
    while i < count
        invariant
            i <= count,
            count == len as int / width as int,
            off + len <= data@.len(),
            1 <= width <= 4,
            chunk == data@.subrange(off as int, off as int + len as int),
            data@.len() <= usize::MAX,
            out@.len() == i,
            forall|k: int|
                0 <= k < i ==> out@[k] == int_sample_spec(chunk, width as int, k),
        decreases count - i,
    {
        proof {
            assert((i + 1) * width <= count * width <= len) by (nonlinear_arith)
                requires
                    i < count,
                    count == len as int / width as int,
                    1 <= width <= 4,
                    len >= 0,
            ;
            assert(i * width + width == (i + 1) * width) by (nonlinear_arith);
        }
        let pos = off + i * width;
        let raw = le_value_at(data, pos, width);
        proof {
            assert(chunk.subrange(
                i as int * width as int,
                i as int * width as int + width as int,
            ) =~= data@.subrange(pos as int, pos as int + width as int));
            reveal_with_fuel(pow256, 6);
            assert(pow256(1) == 256 && pow256(2) == 0x1_0000 && pow256(3) == 0x100_0000 && pow256(
                4,
            ) == 0x1_0000_0000);
        }
        let signed: i64 = if width == 1 {
            (raw as i64) - 128
        } else {
            let half: u64 = if width == 2 {
                0x8000
            } else if width == 3 {
                0x80_0000
            } else {
                0x8000_0000
            };
            if raw >= half {
                (raw as i64) - 2 * (half as i64)
            } else {
                raw as i64
            }
        };
        out.push(signed as i32);
        i = i + 1;
    }
    out
}

/// Reads the bit patterns of 32-bit float samples in
/// `data[off .. off + len]`, little-endian. Trailing bytes that do not
/// fill a whole sample are ignored; the caller outside the library turns
/// each pattern into its float.
pub fn read_f32_bits(data: &Vec<u8>, off: usize, len: usize) -> (r: Vec<u32>)
    requires
        off + len <= data@.len(),
    ensures
        r@.len() == len as int / 4,
        forall|i: int|
            0 <= i < r@.len() ==> r@[i] == spec_u32_from_le_bytes(
                data@.subrange(off as int + 4 * i, off as int + 4 * i + 4),
            ),
{
    let _len = data.len();
    let count = len / 4;
    let mut out: Vec<u32> = Vec::new();
    let mut i: usize = 0;
    while i < count
        invariant
            i <= count,
            count == len as int / 4,
            off + len <= data@.len(),
            data@.len() <= usize::MAX,
            out@.len() == i,
            forall|k: int|
                0 <= k < i ==> out@[k] == spec_u32_from_le_bytes(
                    data@.subrange(off as int + 4 * k, off as int + 4 * k + 4),
                ),
        decreases count - i,
    {
        let pos = off + i * 4;
        let x = u32_from_le_bytes(slice_subrange(data.as_slice(), pos, pos + 4));
        out.push(x);
        i = i + 1;
    }
    out
}

/// The layout of a conversion, computed from the container alone: the
/// parsed format, where the samples lie, and the output length at the
/// target rate. A malformed container gives `InvalidAudioFormat`, never a
/// panic.
pub fn convert_layout(bytes: &Vec<u8>) -> (r: Result<AudioLayout, TranscribeError>)
    ensures
        match r {
            Ok(l) => {
                &&& spec_parse_wav(bytes@) == Some((l.spec, l.data_off as int, l.data_len as int))
                &&& l.spec.valid()
                &&& l.data_off + l.data_len <= bytes@.len()
                &&& l.samples == l.data_len as int / (l.spec.bits_per_sample as int / 8)
                &&& l.frames == l.samples as int / (l.spec.channels as int)
                &&& l.out_len == resampled_len_spec(
                    l.frames as int,
                    l.spec.sample_rate as int,
                    TARGET_RATE as int,
                )
            },
            Err(e) => spec_parse_wav(bytes@) is None && e matches
                TranscribeError::InvalidAudioFormat(_),
        },
{
    let parsed = parse_wav(bytes);
    let (spec, data_off, data_len) = match parsed {
        Some(t) => t,
        None => {
            return Err(
                TranscribeError::InvalidAudioFormat(
                    String::from_str("not a readable PCM container"),
                ),
            );
        },
    };
    proof {
        lemma_parse_wav_shape(bytes@);
    }
    let width = (spec.bits_per_sample / 8) as usize;
    let samples = data_len / width;
    let frames = samples / (spec.channels as usize);
    let out_len = resampled_len(frames, spec.sample_rate, TARGET_RATE);
    Ok(AudioLayout { spec, data_off, data_len, samples, frames, out_len })
}

/// What the chunk walk guarantees of a successful parse: the format was
/// taken from a well-formed `fmt ` chunk, and the data chunk lies inside
/// the input with a length that fits its 32-bit size field.
proof fn lemma_parse_chunks_shape(b: Seq<u8>, pos: int, found: Option<WavSpec>)
    requires
        parse_chunks(b, pos, found) is Some,
        match found {
            Some(s) => s.valid(),
            None => true,
        },
    ensures
        ({
            let t = parse_chunks(b, pos, found)->0;
            &&& t.0.valid()
            &&& 0 <= t.1
            &&& t.1 + t.2 <= b.len()
            &&& 0 <= t.2 <= 0xffff_ffff
        }),
    decreases b.len() - pos,
{
    let id = b.subrange(pos, pos + 4);
    let size = spec_u32_from_le_bytes(b.subrange(pos + 4, pos + 8)) as int;
    if id == crate::wav::data_tag() {
    } else {
        let pad = if size % 2 == 1 {
            1int
        } else {
            0int
        };
        let next = pos + 8 + size + pad;
        if id == crate::wav::fmt_tag() {
            let body = b.subrange(pos + 8, pos + 8 + size);
            match parse_fmt_body(body) {
                Some(s) => {
                    lemma_parse_chunks_shape(b, next, Some(s));
                },
                None => {},
            }
        } else {
            lemma_parse_chunks_shape(b, next, found);
        }
    }
}

/// Lifts the chunk-walk guarantees to the whole container.
pub proof fn lemma_parse_wav_shape(b: Seq<u8>)
    requires
        spec_parse_wav(b) is Some,
    ensures
        ({
            let t = spec_parse_wav(b)->0;
            &&& t.0.valid()
            &&& 0 <= t.1
            &&& t.1 + t.2 <= b.len()
            &&& 0 <= t.2 <= 0xffff_ffff
        }),
{
    lemma_parse_chunks_shape(b, 12, None);
}

} // verus!
