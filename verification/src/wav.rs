//! The audio container format the recorder writes and the converter reads:
//! linear-PCM WAV. Encoding builds the canonical 44-byte header in front of
//! the sample bytes; parsing walks the chunk list, accepts integer and
//! 32-bit-float PCM, and rejects every malformed input instead of panicking.

use vstd::prelude::*;
use vstd::bytes::*;
use vstd::slice::slice_subrange;

verus! {

broadcast use vstd::seq_lib::group_seq_lib_default;

/// How the sample bytes of a recording are to be read.
#[derive(Clone, Copy, PartialEq, Eq, Structural, Debug)]
pub enum SampleFormat {
    /// Signed integer PCM.
    Int,
    /// IEEE 32-bit float PCM.
    Float,
}

/// The format descriptor of a recording: what the `fmt ` chunk of its
/// container carries.
#[derive(Clone, Copy, PartialEq, Eq, Structural, Debug)]
pub struct WavSpec {
    pub channels: u16,
    pub sample_rate: u32,
    pub bits_per_sample: u16,
    pub sample_format: SampleFormat,
}

impl WavSpec {
    /// The field values this library accepts: at least one channel, a
    /// positive rate, a byte-aligned depth up to 32 bits, and floats only
    /// at 32 bits.
    pub open spec fn valid(self) -> bool {
        &&& 1 <= self.channels
        &&& 1 <= self.sample_rate
        &&& (self.bits_per_sample == 8 || self.bits_per_sample == 16
            || self.bits_per_sample == 24 || self.bits_per_sample == 32)
        &&& (self.sample_format is Float ==> self.bits_per_sample == 32)
    }

    /// A valid spec whose derived rate fields also fit their header slots.
    pub open spec fn encodable(self) -> bool {
        &&& self.valid()
        &&& self.block_align() <= 0xffff
        &&& self.byte_rate() <= 0xffff_ffff
    }

    /// The value of the format-tag header field.
    pub open spec fn format_tag(self) -> u16 {
        if self.sample_format is Float {
            3
        } else {
            1
        }
    }

    /// Width of one sample in bytes.
    pub open spec fn bytes_per_sample(self) -> int {
        self.bits_per_sample as int / 8
    }

    /// Width of one frame (one sample per channel) in bytes.
    pub open spec fn block_align(self) -> int {
        self.channels * self.bytes_per_sample()
    }

    /// Bytes consumed per second of audio.
    pub open spec fn byte_rate(self) -> int {
        self.sample_rate * self.block_align()
    }
}

pub open spec fn riff_tag() -> Seq<u8> {
    seq![0x52u8, 0x49u8, 0x46u8, 0x46u8]
}

pub open spec fn wave_tag() -> Seq<u8> {
    seq![0x57u8, 0x41u8, 0x56u8, 0x45u8]
}

pub open spec fn fmt_tag() -> Seq<u8> {
    seq![0x66u8, 0x6du8, 0x74u8, 0x20u8]
}

pub open spec fn data_tag() -> Seq<u8> {
    seq![0x64u8, 0x61u8, 0x74u8, 0x61u8]
}

/// The canonical header this library writes: RIFF envelope, a 16-byte
/// `fmt ` chunk, and the `data` chunk header, all sizes little-endian.
pub open spec fn wav_header(spec: WavSpec, data_len: int) -> Seq<u8> {
    riff_tag() + spec_u32_to_le_bytes((36 + data_len) as u32) + wave_tag() + fmt_tag()
        + spec_u32_to_le_bytes(16) + spec_u16_to_le_bytes(spec.format_tag())
        + spec_u16_to_le_bytes(spec.channels) + spec_u32_to_le_bytes(spec.sample_rate)
        + spec_u32_to_le_bytes(spec.byte_rate() as u32)
        + spec_u16_to_le_bytes(spec.block_align() as u16)
        + spec_u16_to_le_bytes(spec.bits_per_sample) + data_tag()
        + spec_u32_to_le_bytes(data_len as u32)
}

/// Reads a `fmt ` chunk body: format tag, channel count, sample rate and
/// bit depth; the two derived rate fields are not trusted and are ignored.
pub open spec fn parse_fmt_body(body: Seq<u8>) -> Option<WavSpec> {
    if body.len() < 16 {
        None
    } else {
        let tag = spec_u16_from_le_bytes(body.subrange(0, 2));
        let channels = spec_u16_from_le_bytes(body.subrange(2, 4));
        let rate = spec_u32_from_le_bytes(body.subrange(4, 8));
        let bits = spec_u16_from_le_bytes(body.subrange(14, 16));
        let spec = WavSpec {
            channels,
            sample_rate: rate,
            bits_per_sample: bits,
            sample_format: if tag == 3 {
                SampleFormat::Float
            } else {
                SampleFormat::Int
            },
        };
        if (tag == 1 || tag == 3) && spec.valid() {
            Some(spec)
        } else {
            None
        }
    }
}

/// Walks the chunk list from `pos`. A `fmt ` chunk must come before the
/// `data` chunk and appear once; unknown chunks are skipped, with the pad
/// byte RIFF adds after an odd-sized body. The result is the parsed format
/// together with the offset and length of the sample data.
pub open spec fn parse_chunks(b: Seq<u8>, pos: int, found: Option<WavSpec>) -> Option<
    (WavSpec, int, int),
>
    decreases b.len() - pos,
{
    if pos < 0 || pos + 8 > b.len() {
        None
    } else {
        let id = b.subrange(pos, pos + 4);
        let size = spec_u32_from_le_bytes(b.subrange(pos + 4, pos + 8)) as int;
        if id == data_tag() {
            if pos + 8 + size <= b.len() {
                match found {
                    Some(s) => Some((s, pos + 8, size)),
                    None => None,
                }
            } else {
                None
            }
        } else {
            let pad = if size % 2 == 1 {
                1int
            } else {
                0int
            };
            let next = pos + 8 + size + pad;
            if next > b.len() {
                None
            } else if id == fmt_tag() {
                match parse_fmt_body(b.subrange(pos + 8, pos + 8 + size)) {
                    Some(s) => if found is None {
                        parse_chunks(b, next, Some(s))
                    } else {
                        None
                    },
                    None => None,
                }
            } else {
                parse_chunks(b, next, found)
            }
        }
    }
}

/// The whole container: RIFF envelope (the outer size field is not
/// trusted), then the chunk walk.
pub open spec fn spec_parse_wav(b: Seq<u8>) -> Option<(WavSpec, int, int)> {
    if b.len() >= 12 && b.subrange(0, 4) == riff_tag() && b.subrange(8, 12) == wave_tag() {
        parse_chunks(b, 12, None)
    } else {
        None
    }
}

fn read_u16_at(b: &Vec<u8>, pos: usize) -> (x: u16)
    requires
        pos + 2 <= b@.len(),
    ensures
        x == spec_u16_from_le_bytes(b@.subrange(pos as int, pos as int + 2)),
{
    let _len = b.len();
    u16_from_le_bytes(slice_subrange(b.as_slice(), pos, pos + 2))
}

fn read_u32_at(b: &Vec<u8>, pos: usize) -> (x: u32)
    requires
        pos + 4 <= b@.len(),
    ensures
        x == spec_u32_from_le_bytes(b@.subrange(pos as int, pos as int + 4)),
{
    let _len = b.len();
    u32_from_le_bytes(slice_subrange(b.as_slice(), pos, pos + 4))
}

/// True when the four bytes at `pos` are `t0 t1 t2 t3`.
fn tag_at(b: &Vec<u8>, pos: usize, t0: u8, t1: u8, t2: u8, t3: u8) -> (r: bool)
    requires
        pos + 4 <= b@.len(),
    ensures
        r == (b@.subrange(pos as int, pos as int + 4) == seq![t0, t1, t2, t3]),
{
    let _len = b.len();
    let r = b[pos] == t0 && b[pos + 1] == t1 && b[pos + 2] == t2 && b[pos + 3] == t3;
    proof {
        if r {
            assert(b@.subrange(pos as int, pos as int + 4) =~= seq![t0, t1, t2, t3]);
        } else {
            let s = b@.subrange(pos as int, pos as int + 4);
            assert(s[0] == b@[pos as int]);
            assert(s[1] == b@[pos as int + 1]);
            assert(s[2] == b@[pos as int + 2]);
            assert(s[3] == b@[pos as int + 3]);
            assert(s != seq![t0, t1, t2, t3]);
        }
    }
    r
}

fn parse_fmt_at(b: &Vec<u8>, off: usize, size: usize) -> (r: Option<WavSpec>)
    requires
        off + size <= b@.len(),
    ensures
        r == parse_fmt_body(b@.subrange(off as int, off as int + size as int)),
{
    let _len = b.len();
    let ghost body = b@.subrange(off as int, off as int + size as int);
    if size < 16 {
        return None;
    }
    let tag = read_u16_at(b, off);
    let channels = read_u16_at(b, off + 2);
    let rate = read_u32_at(b, off + 4);
    let bits = read_u16_at(b, off + 14);
    proof {
        assert(body.subrange(0, 2) =~= b@.subrange(off as int, off as int + 2));
        assert(body.subrange(2, 4) =~= b@.subrange(off as int + 2, off as int + 4));
        assert(body.subrange(4, 8) =~= b@.subrange(off as int + 4, off as int + 8));
        assert(body.subrange(14, 16) =~= b@.subrange(off as int + 14, off as int + 16));
    }
    let spec = WavSpec {
        channels,
        sample_rate: rate,
        bits_per_sample: bits,
        sample_format: if tag == 3 {
            SampleFormat::Float
        } else {
            SampleFormat::Int
        },
    };
    if (tag == 1 || tag == 3) && channels >= 1 && rate >= 1 && (bits == 8 || bits == 16 || bits
        == 24 || bits == 32) && (tag != 3 || bits == 32) {
        Some(spec)
    } else {
        None
    }
}

/// Parses a WAV container. On success the result is the format descriptor
/// and the offset and length of the sample data inside `bytes`; a malformed
/// container gives `None`, never a panic.
pub fn parse_wav(bytes: &Vec<u8>) -> (r: Option<(WavSpec, usize, usize)>)
    ensures
        match r {
            Some(t) => spec_parse_wav(bytes@) == Some((t.0, t.1 as int, t.2 as int)),
            None => spec_parse_wav(bytes@) is None,
        },
{
    if bytes.len() < 12 {
        return None;
    }
    if !tag_at(bytes, 0, 0x52, 0x49, 0x46, 0x46) {
        return None;
    }
    if !tag_at(bytes, 8, 0x57, 0x41, 0x56, 0x45) {
        return None;
    }
    let mut pos: usize = 12;
    let mut found: Option<WavSpec> = None;
    loop
        invariant
            12 <= pos,
            bytes@.len() >= 12,
            parse_chunks(bytes@, 12, None) == parse_chunks(bytes@, pos as int, found),
            spec_parse_wav(bytes@) == parse_chunks(bytes@, 12, None),
        decreases bytes@.len() - pos,
    {
        let len = bytes.len();
        if pos >= len || len - pos < 8 {
            return None;
        }
        let size32 = read_u32_at(bytes, pos + 4);
        let size = size32 as usize;
        if tag_at(bytes, pos, 0x64, 0x61, 0x74, 0x61) {
            // the data chunk: its body must lie inside the input
            if size <= len - (pos + 8) {
                match found {
                    Some(s) => {
                        return Some((s, pos + 8, size));
                    },
                    None => {
                        return None;
                    },
                }
            } else {
                return None;
            }
        } else {
            let pad: usize = if size % 2 == 1 {
                1
            } else {
                0
            };
            // next chunk start; reject when it runs past the end
            if size > len - (pos + 8) || pad > len - (pos + 8) - size {
                return None;
            }
            let next = pos + 8 + size + pad;
            if tag_at(bytes, pos, 0x66, 0x6d, 0x74, 0x20) {
                match parse_fmt_at(bytes, pos + 8, size) {
                    Some(s) => {
                        if found.is_none() {
                            found = Some(s);
                            pos = next;
                        } else {
                            return None;
                        }
                    },
                    None => {
                        return None;
                    },
                }
            } else {
                pos = next;
            }
        }
    }
}

fn push_u16_le(out: &mut Vec<u8>, x: u16)
    ensures
        final(out)@ == old(out)@ + spec_u16_to_le_bytes(x),
{
    let mut b = u16_to_le_bytes(x);
    out.append(&mut b);
}

fn push_u32_le(out: &mut Vec<u8>, x: u32)
    ensures
        final(out)@ == old(out)@ + spec_u32_to_le_bytes(x),
{
    let mut b = u32_to_le_bytes(x);
    out.append(&mut b);
}

/// Builds the finished container: the canonical header, then the sample
/// bytes. This is the framing step a finished recording goes through.
pub fn encode_wav(spec: &WavSpec, samples: &Vec<u8>) -> (r: Vec<u8>)
    requires
        spec.encodable(),
        samples@.len() + 36 <= 0xffff_ffff,
    ensures
        r@ == wav_header(*spec, samples@.len() as int) + samples@,
{
    let data_len = samples.len();
    let mut out: Vec<u8> = Vec::new();
    out.push(0x52);
    out.push(0x49);
    out.push(0x46);
    out.push(0x46);
    push_u32_le(&mut out, 36 + (data_len as u32));
    out.push(0x57);
    out.push(0x41);
    out.push(0x56);
    out.push(0x45);
    out.push(0x66);
    out.push(0x6d);
    out.push(0x74);
    out.push(0x20);
    push_u32_le(&mut out, 16);
    let tag: u16 = match spec.sample_format {
        SampleFormat::Float => 3,
        SampleFormat::Int => 1,
    };
    push_u16_le(&mut out, tag);
    push_u16_le(&mut out, spec.channels);
    push_u32_le(&mut out, spec.sample_rate);
    let bytes_per_sample = spec.bits_per_sample / 8;
    let block_align = spec.channels * bytes_per_sample;
    push_u32_le(&mut out, spec.sample_rate * (block_align as u32));
    push_u16_le(&mut out, block_align);
    push_u16_le(&mut out, spec.bits_per_sample);
    out.push(0x64);
    out.push(0x61);
    out.push(0x74);
    out.push(0x61);
    push_u32_le(&mut out, data_len as u32);
    proof {
        assert(out@ =~= wav_header(*spec, samples@.len() as int));
    }
    let mut i: usize = 0;
    while i < data_len
        invariant
            i <= data_len,
            data_len == samples@.len(),
            out@ == wav_header(*spec, samples@.len() as int) + samples@.subrange(0, i as int),
        decreases data_len - i,
    {
        out.push(samples[i]);
        proof {
            assert(wav_header(*spec, samples@.len() as int) + samples@.subrange(
                0,
                i as int,
            ).push(samples@[i as int]) =~= wav_header(*spec, samples@.len() as int)
                + samples@.subrange(0, i as int + 1));
        }
        i = i + 1;
    }
    proof {
        assert(samples@.subrange(0, samples@.len() as int) =~= samples@);
    }
    out
}

/// What the parser gives back for a container this library wrote: the same
/// format descriptor, and the sample bytes exactly where the encoder put
/// them.
/// The fields of the canonical header, each at its offset.
#[verifier::rlimit(60)]
proof fn lemma_wav_header_fields(spec: WavSpec, data_len: int)
    requires
        spec.encodable(),
        0 <= data_len,
        data_len + 36 <= 0xffff_ffff,
    ensures
        ({
            let h = wav_header(spec, data_len);
            &&& h.len() == 44
            &&& h.subrange(0, 4) == riff_tag()
            &&& h.subrange(8, 12) == wave_tag()
            &&& h.subrange(12, 16) == fmt_tag()
            &&& h.subrange(16, 20) == spec_u32_to_le_bytes(16)
            &&& h.subrange(20, 22) == spec_u16_to_le_bytes(spec.format_tag())
            &&& h.subrange(22, 24) == spec_u16_to_le_bytes(spec.channels)
            &&& h.subrange(24, 28) == spec_u32_to_le_bytes(spec.sample_rate)
            &&& h.subrange(34, 36) == spec_u16_to_le_bytes(spec.bits_per_sample)
            &&& h.subrange(36, 40) == data_tag()
            &&& h.subrange(40, 44) == spec_u32_to_le_bytes(data_len as u32)
        }),
{
    lemma_auto_spec_u16_to_from_le_bytes();
    lemma_auto_spec_u32_to_from_le_bytes();
    let h = wav_header(spec, data_len);
    assert(h.len() == 44);
    assert(h.subrange(0, 4) =~= riff_tag());
    assert(h.subrange(8, 12) =~= wave_tag());
    assert(h.subrange(12, 16) =~= fmt_tag());
    assert(h.subrange(16, 20) =~= spec_u32_to_le_bytes(16));
    assert(h.subrange(20, 22) =~= spec_u16_to_le_bytes(spec.format_tag()));
    assert(h.subrange(22, 24) =~= spec_u16_to_le_bytes(spec.channels));
    assert(h.subrange(24, 28) =~= spec_u32_to_le_bytes(spec.sample_rate));
    assert(h.subrange(34, 36) =~= spec_u16_to_le_bytes(spec.bits_per_sample));
    assert(h.subrange(36, 40) =~= data_tag());
    assert(h.subrange(40, 44) =~= spec_u32_to_le_bytes(data_len as u32));
}

/// What the parser gives back for a container this library wrote: the same
/// format descriptor, and the sample bytes exactly where the encoder put
/// them.
#[verifier::rlimit(60)]
pub proof fn lemma_wav_round_trip(spec: WavSpec, data: Seq<u8>)
    requires
        spec.encodable(),
        data.len() + 36 <= 0xffff_ffff,
    ensures
        spec_parse_wav(wav_header(spec, data.len() as int) + data) == Some(
            (spec, 44int, data.len() as int),
        ),
{
    lemma_auto_spec_u16_to_from_le_bytes();
    lemma_auto_spec_u32_to_from_le_bytes();
    lemma_wav_header_fields(spec, data.len() as int);
    let h = wav_header(spec, data.len() as int);
    let b = h + data;
    assert(b.len() == 44 + data.len());
    assert forall|i: int, j: int| 0 <= i <= j <= 44 implies b.subrange(i, j) =~= h.subrange(
        i,
        j,
    ) by {
        assert forall|k: int| i <= k < j implies b[k] == h[k] by {}
    }
    assert(b.subrange(0, 4) == riff_tag());
    assert(b.subrange(8, 12) == wave_tag());
    // the fmt chunk at offset 12
    assert(b.subrange(12, 16) == fmt_tag());
    assert(b.subrange(16, 20) == spec_u32_to_le_bytes(16));
    let body = b.subrange(20, 36);
    assert(body.subrange(0, 2) =~= b.subrange(20, 22));
    assert(body.subrange(2, 4) =~= b.subrange(22, 24));
    assert(body.subrange(4, 8) =~= b.subrange(24, 28));
    assert(body.subrange(14, 16) =~= b.subrange(34, 36));
    assert(parse_fmt_body(body) == Some(spec));
    assert(parse_chunks(b, 12, None) == parse_chunks(b, 36, Some(spec)));
    // the data chunk at offset 36
    assert(b.subrange(36, 40) == data_tag());
    assert(b.subrange(40, 44) == spec_u32_to_le_bytes(data.len() as u32));
    assert(parse_chunks(b, 36, Some(spec)) == Some((spec, 44int, data.len() as int)));
}

} // verus!
