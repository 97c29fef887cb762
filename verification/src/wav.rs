//! Encoding of a finalized phrase as a single-channel 16-bit little-endian
//! PCM WAV container with the canonical 44-byte header, and a parser for
//! that header, so that the encoding can be checked against what a reader
//! of the container sees.

use vstd::prelude::*;

verus! {

/// Little-endian bytes of a 16-bit value.
pub open spec fn u16_le(x: u16) -> Seq<u8> {
    seq![(x % 0x100) as u8, (x / 0x100) as u8]
}

/// Little-endian bytes of a 32-bit value.
pub open spec fn u32_le(x: u32) -> Seq<u8> {
    seq![
        (x % 0x100) as u8,
        (x / 0x100 % 0x100) as u8,
        (x / 0x10000 % 0x100) as u8,
        (x / 0x1000000) as u8,
    ]
}

/// A sample is stored as its 16-bit two's-complement little-endian bytes.
pub open spec fn i16_le(s: i16) -> Seq<u8> {
    u16_le(s as u16)
}

/// The data chunk payload: each sample in order, two bytes each.
pub open spec fn sample_bytes(samples: Seq<i16>) -> Seq<u8>
    decreases samples.len(),
{
    if samples.len() == 0 {
        Seq::empty()
    } else {
        sample_bytes(samples.drop_last()) + i16_le(samples.last())
    }
}

pub proof fn lemma_sample_bytes_len(samples: Seq<i16>)
    ensures
        sample_bytes(samples).len() == 2 * samples.len(),
    decreases samples.len(),
{
    if samples.len() > 0 {
        lemma_sample_bytes_len(samples.drop_last());
    }
}

/// The canonical 44-byte header: RIFF marker and file size, WAVE and fmt
/// markers, a 16-byte format chunk declaring PCM, mono, the sample rate,
/// byte rate `2 * rate`, block align 2 and 16 bits per sample, then the
/// data marker and the data size `2 * n`.
pub open spec fn wav_header(rate: u32, n: nat) -> Seq<u8> {
    seq![82u8, 73u8, 70u8, 70u8]  // "RIFF"
     + u32_le((36 + 2 * n) as u32) + seq![87u8, 65u8, 86u8, 69u8]  // "WAVE"
     + seq![102u8, 109u8, 116u8, 32u8]  // "fmt "
     + u32_le(16u32) + u16_le(1u16)  // PCM
     + u16_le(1u16)  // mono
     + u32_le(rate) + u32_le((2 * rate) as u32) + u16_le(2u16)  // block align
     + u16_le(16u16)  // bits per sample
     + seq![100u8, 97u8, 116u8, 97u8]  // "data"
     + u32_le((2 * n) as u32)
}

/// The whole container: header followed by the sample data.
pub open spec fn wav_bytes(samples: Seq<i16>, rate: u32) -> Seq<u8> {
    wav_header(rate, samples.len()) + sample_bytes(samples)
}

fn push_u16_le(buf: &mut Vec<u8>, x: u16)
    ensures
        final(buf)@ == old(buf)@ + u16_le(x),
{
    buf.push((x % 0x100) as u8);
    buf.push((x / 0x100) as u8);
    proof {
        assert(final(buf)@ =~= old(buf)@ + u16_le(x));
    }
}

fn push_u32_le(buf: &mut Vec<u8>, x: u32)
    ensures
        final(buf)@ == old(buf)@ + u32_le(x),
{
    buf.push((x % 0x100) as u8);
    buf.push((x / 0x100 % 0x100) as u8);
    buf.push((x / 0x10000 % 0x100) as u8);
    buf.push((x / 0x1000000) as u8);
    proof {
        assert(final(buf)@ =~= old(buf)@ + u32_le(x));
    }
}

proof fn lemma_sample_bytes_prefix_step(s: Seq<i16>, i: int)
    requires
        0 <= i < s.len(),
    ensures
        sample_bytes(s.subrange(0, i + 1)) == sample_bytes(s.subrange(0, i)) + i16_le(s[i]),
{
    let p = s.subrange(0, i + 1);
    assert(p.drop_last() =~= s.subrange(0, i));
    assert(p.last() == s[i]);
}

/// Encodes samples as a mono 16-bit PCM WAV container at the given rate.
pub fn encode_wav(samples: &Vec<i16>, rate: u32) -> (r: Vec<u8>)
    requires
        36 + 2 * samples@.len() <= u32::MAX,
        2 * rate <= u32::MAX,
    ensures
        r@ == wav_bytes(samples@, rate),
{
    let n = samples.len();
    let data_size: u32 = (n as u32) * 2;
    let file_size: u32 = 36 + data_size;
    let byte_rate: u32 = rate * 2;

    let mut buf: Vec<u8> = Vec::new();
    buf.push(82);
    buf.push(73);
    buf.push(70);
    buf.push(70);
    push_u32_le(&mut buf, file_size);
    buf.push(87);
    buf.push(65);
    buf.push(86);
    buf.push(69);
    buf.push(102);
    buf.push(109);
    buf.push(116);
    buf.push(32);
    push_u32_le(&mut buf, 16);
    push_u16_le(&mut buf, 1);
    push_u16_le(&mut buf, 1);
    push_u32_le(&mut buf, rate);
    push_u32_le(&mut buf, byte_rate);
    push_u16_le(&mut buf, 2);
    push_u16_le(&mut buf, 16);
    buf.push(100);
    buf.push(97);
    buf.push(116);
    buf.push(97);
    push_u32_le(&mut buf, data_size);
    proof {
        assert(buf@ =~= wav_header(rate, samples@.len()));
        assert(samples@.subrange(0, 0) =~= Seq::<i16>::empty());
    }
    for i in 0..n
        invariant
            n == samples@.len(),
            buf@ == wav_header(rate, samples@.len()) + sample_bytes(samples@.subrange(0, i as int)),
    {
        let u = samples[i] as u16;
        proof {
            lemma_sample_bytes_prefix_step(samples@, i as int);
        }
        let ghost before = buf@;
        buf.push((u % 0x100) as u8);
        buf.push((u / 0x100) as u8);
        proof {
            assert(buf@ =~= before + i16_le(samples@[i as int]));
        }
    }
    proof {
        assert(samples@.subrange(0, n as int) =~= samples@);
    }
    buf
}

/// The fields of a parsed canonical WAV header.
#[derive(Clone, Copy, PartialEq, Eq, Structural, Debug)]
pub struct WavHeader {
    pub audio_format: u16,
    pub channels: u16,
    pub sample_rate: u32,
    pub byte_rate: u32,
    pub block_align: u16,
    pub bits_per_sample: u16,
    pub data_len: u32,
}

pub open spec fn spec_u16_at(b: Seq<u8>, i: int) -> u16 {
    (b[i] + b[i + 1] * 0x100) as u16
}

pub open spec fn spec_u32_at(b: Seq<u8>, i: int) -> u32 {
    (b[i] + b[i + 1] * 0x100 + b[i + 2] * 0x10000 + b[i + 3] * 0x1000000) as u32
}

/// Whether the bytes begin with a canonical PCM WAV header: the four
/// markers in place, a 16-byte format chunk, and a data size that matches
/// the number of bytes that follow the header.
pub open spec fn wav_header_valid(b: Seq<u8>) -> bool {
    &&& b.len() >= 44
    &&& b[0] == 82 && b[1] == 73 && b[2] == 70 && b[3] == 70
    &&& b[8] == 87 && b[9] == 65 && b[10] == 86 && b[11] == 69
    &&& b[12] == 102 && b[13] == 109 && b[14] == 116 && b[15] == 32
    &&& spec_u32_at(b, 16) == 16
    &&& b[36] == 100 && b[37] == 97 && b[38] == 116 && b[39] == 97
    &&& spec_u32_at(b, 40) == b.len() - 44
}

/// What parsing yields: the declared format fields when the header is
/// canonical, nothing otherwise.
pub open spec fn spec_parse_wav(b: Seq<u8>) -> Option<WavHeader> {
    if wav_header_valid(b) {
        Some(
            WavHeader {
                audio_format: spec_u16_at(b, 20),
                channels: spec_u16_at(b, 22),
                sample_rate: spec_u32_at(b, 24),
                byte_rate: spec_u32_at(b, 28),
                block_align: spec_u16_at(b, 32),
                bits_per_sample: spec_u16_at(b, 34),
                data_len: spec_u32_at(b, 40),
            },
        )
    } else {
        None
    }
}

fn read_u16_at(b: &Vec<u8>, i: usize) -> (x: u16)
    requires
        i + 2 <= b.len(),
    ensures
        x == spec_u16_at(b@, i as int),
{
    b[i] as u16 + b[i + 1] as u16 * 0x100
}

fn read_u32_at(b: &Vec<u8>, i: usize) -> (x: u32)
    requires
        i + 4 <= b.len(),
    ensures
        x == spec_u32_at(b@, i as int),
{
    b[i] as u32 + b[i + 1] as u32 * 0x100 + b[i + 2] as u32 * 0x10000 + b[i + 3] as u32
        * 0x1000000
}

/// Parses the canonical 44-byte header of a WAV container, returning its
/// declared format fields, or nothing when the bytes do not carry one.
pub fn parse_wav_header(bytes: &Vec<u8>) -> (r: Option<WavHeader>)
    ensures
        r == spec_parse_wav(bytes@),
{
    if bytes.len() < 44 {
        return None;
    }
    let magics_ok = bytes[0] == 82 && bytes[1] == 73 && bytes[2] == 70 && bytes[3] == 70
        && bytes[8] == 87 && bytes[9] == 65 && bytes[10] == 86 && bytes[11] == 69 && bytes[12]
        == 102 && bytes[13] == 109 && bytes[14] == 116 && bytes[15] == 32 && bytes[36] == 100
        && bytes[37] == 97 && bytes[38] == 116 && bytes[39] == 97;
    if !magics_ok {
        return None;
    }
    if read_u32_at(bytes, 16) != 16 {
        return None;
    }
    let declared = read_u32_at(bytes, 40);
    if !(declared as u64 == (bytes.len() - 44) as u64) {
        return None;
    }
    Some(
        WavHeader {
            audio_format: read_u16_at(bytes, 20),
            channels: read_u16_at(bytes, 22),
            sample_rate: read_u32_at(bytes, 24),
            byte_rate: read_u32_at(bytes, 28),
            block_align: read_u16_at(bytes, 32),
            bits_per_sample: read_u16_at(bytes, 34),
            data_len: declared,
        },
    )
}


proof fn lemma_u16_le_round_trip(x: u16)
    ensures
        (x % 0x100) + (x / 0x100) * 0x100 == x,
{
    assert((x % 0x100) + (x / 0x100) * 0x100 == x) by (bit_vector);
}

proof fn lemma_u32_le_round_trip(x: u32)
    ensures
        (x % 0x100) + (x / 0x100 % 0x100) * 0x100 + (x / 0x10000 % 0x100) * 0x10000 + (x
            / 0x1000000) * 0x1000000 == x,
{
    assert((x % 0x100) + (x / 0x100 % 0x100) * 0x100 + (x / 0x10000 % 0x100) * 0x10000 + (x
        / 0x1000000) * 0x1000000 == x) by (bit_vector);
}

/// Round trip: parsing the container produced by the encoder yields a
/// header that declares PCM, one channel, the encoding sample rate, 16
/// bits per sample, and a data size of exactly two bytes per sample.
pub proof fn lemma_wav_round_trip(samples: Seq<i16>, rate: u32)
    requires
        36 + 2 * samples.len() <= u32::MAX,
        2 * rate <= u32::MAX,
    ensures
        spec_parse_wav(wav_bytes(samples, rate)) == Some(WavHeader {
            audio_format: 1,
            channels: 1,
            sample_rate: rate,
            byte_rate: (2 * rate) as u32,
            block_align: 2,
            bits_per_sample: 16,
            data_len: (2 * samples.len()) as u32,
        }),
{
    let n = samples.len();
    let h = wav_header(rate, n);
    let b = wav_bytes(samples, rate);
    lemma_sample_bytes_len(samples);
    assert(h.len() == 44);
    assert(b.len() == 44 + 2 * n);
    assert(forall|i: int| 0 <= i < 44 ==> b[i] == h[i]);
    lemma_u32_le_round_trip(rate);
    lemma_u32_le_round_trip((2 * n) as u32);
    lemma_u32_le_round_trip((2 * rate) as u32);
    lemma_u16_le_round_trip(1);
    lemma_u16_le_round_trip(2);
    lemma_u16_le_round_trip(16);
    assert(spec_u32_at(b, 16) == 16);
    assert(spec_u32_at(b, 24) == rate);
    assert(spec_u32_at(b, 28) == (2 * rate) as u32);
    assert(spec_u32_at(b, 40) == (2 * n) as u32);
    assert(spec_u16_at(b, 20) == 1);
    assert(spec_u16_at(b, 22) == 1);
    assert(spec_u16_at(b, 32) == 2);
    assert(spec_u16_at(b, 34) == 16);
    assert(wav_header_valid(b));
}

} // verus!
