//! The WAV files a segment is saved as: a 44-byte PCM header (16 kHz,
//! mono, 16 bits) and the samples, little-endian.
use vstd::prelude::*;
use crate::continuous_capture::s16le_samples;
use crate::session::{is_wav_header, recording_problem};

verus! {

/// Sample rate of saved segments, in Hz.
pub const WAV_SAMPLE_RATE: u32 = 16000;

/// The two bytes of `v`, least significant first.
pub open spec fn le16(v: int) -> Seq<u8> {
    seq![(v % 256) as u8, ((v / 256) % 256) as u8]
}

/// The four bytes of `v`, least significant first.
pub open spec fn le32(v: int) -> Seq<u8> {
    seq![(v % 256) as u8, ((v / 256) % 256) as u8, ((v / 65536) % 256) as u8, ((v / 16777216) % 256) as u8]
}

/// The two's-complement pattern of a sample, as an unsigned number.
pub open spec fn sample_bits(s: i16) -> int {
    if s < 0 {
        s + 65536
    } else {
        s as int
    }
}

/// Samples as little-endian 16-bit PCM bytes.
pub open spec fn pcm_bytes(samples: Seq<i16>) -> Seq<u8> {
    Seq::new(
        2 * samples.len(),
        |k: int|
            if k % 2 == 0 {
                (sample_bits(samples[k / 2]) % 256) as u8
            } else {
                (sample_bits(samples[k / 2]) / 256) as u8
            },
    )
}

/// The header of a 16 kHz mono 16-bit PCM WAV file with `data_size` bytes
/// of samples.
pub open spec fn wav_header(data_size: int) -> Seq<u8> {
    seq![0x52u8, 0x49u8, 0x46u8, 0x46u8] + le32(36 + data_size) + seq![
        0x57u8,
        0x41u8,
        0x56u8,
        0x45u8,
        0x66u8,
        0x6du8,
        0x74u8,
        0x20u8,
    ] + le32(16) + le16(1) + le16(1) + le32(16000) + le32(32000) + le16(2) + le16(16) + seq![
        0x64u8,
        0x61u8,
        0x74u8,
        0x61u8,
    ] + le32(data_size)
}

/// A whole WAV file holding `samples`.
pub open spec fn wav_file(samples: Seq<i16>) -> Seq<u8> {
    wav_header(2 * samples.len() as int) + pcm_bytes(samples)
}

fn push_le16(out: &mut Vec<u8>, v: u16)
    ensures
        final(out)@ == old(out)@ + le16(v as int),
{
    out.push((v % 256) as u8);
    out.push((v / 256) as u8);
    assert(final(out)@ =~= old(out)@ + le16(v as int));
}

fn push_le32(out: &mut Vec<u8>, v: u32)
    ensures
        final(out)@ == old(out)@ + le32(v as int),
{
    out.push((v % 256) as u8);
    out.push(((v / 256) % 256) as u8);
    out.push(((v / 65536) % 256) as u8);
    out.push(((v / 16777216) % 256) as u8);
    assert(final(out)@ =~= old(out)@ + le32(v as int));
}

fn push_bytes4(out: &mut Vec<u8>, a: u8, b: u8, c: u8, d: u8)
    ensures
        final(out)@ == old(out)@ + seq![a, b, c, d],
{
    out.push(a);
    out.push(b);
    out.push(c);
    out.push(d);
    assert(final(out)@ =~= old(out)@ + seq![a, b, c, d]);
}

/// The bytes of a WAV file holding `samples` (16 kHz, mono, 16-bit PCM).
pub fn wav_bytes(samples: &[i16]) -> (r: Vec<u8>)
    requires
        2 * samples@.len() + 36 <= u32::MAX,
    ensures
        r@ == wav_file(samples@),
{
    let n = samples.len();
    let data_size: u32 = (2 * n) as u32;
    let mut out: Vec<u8> = Vec::new();
    push_bytes4(&mut out, 0x52, 0x49, 0x46, 0x46);
    push_le32(&mut out, 36 + data_size);
    push_bytes4(&mut out, 0x57, 0x41, 0x56, 0x45);
    push_bytes4(&mut out, 0x66, 0x6d, 0x74, 0x20);
    push_le32(&mut out, 16);
    push_le16(&mut out, 1);
    push_le16(&mut out, 1);
    push_le32(&mut out, WAV_SAMPLE_RATE);
    push_le32(&mut out, WAV_SAMPLE_RATE * 2);
    push_le16(&mut out, 2);
    push_le16(&mut out, 16);
    push_bytes4(&mut out, 0x64, 0x61, 0x74, 0x61);
    push_le32(&mut out, data_size);
    let ghost header = out@;
    assert(header =~= wav_header(2 * n));
    let mut i: usize = 0;
    while i < n
        invariant
            i <= n == samples@.len(),
            header == wav_header(2 * n),
            out@ == header + pcm_bytes(samples@.take(i as int)),
        decreases n - i,
    {
        let s = samples[i];
        let bits: u32 = if s < 0 { (s as i32 + 65536) as u32 } else { s as u32 };
        out.push((bits % 256) as u8);
        out.push((bits / 256) as u8);
        i = i + 1;
        assert(out@ =~= header + pcm_bytes(samples@.take(i as int))) by {
            let t = samples@.take(i as int);
            assert(pcm_bytes(t) =~= pcm_bytes(samples@.take(i - 1)) + seq![
                (sample_bits(s) % 256) as u8,
                (sample_bits(s) / 256) as u8,
            ]);
        }
    }
    assert(samples@.take(n as int) =~= samples@);
    out
}

/// Decoding the sample bytes of a saved segment gives back its samples.
pub proof fn law_pcm_round_trip(samples: Seq<i16>)
    ensures
        s16le_samples(pcm_bytes(samples)) == samples,
{
    let b = pcm_bytes(samples);
    assert forall|i: int| 0 <= i < samples.len() implies #[trigger] s16le_samples(b)[i]
        == samples[i] by {
        let u = sample_bits(samples[i]);
        assert(b[2 * i] == (u % 256) as u8);
        assert(b[2 * i + 1] == (u / 256) as u8);
        assert(u / 256 >= 128 <==> u >= 32768);
    }
    assert(s16le_samples(b) =~= samples);
}

/// A saved segment with at least one sample passes the checks a stopped
/// recording is put through.
pub proof fn law_saved_segment_is_valid_recording(samples: Seq<i16>)
    requires
        samples.len() > 0,
        2 * samples.len() + 36 <= u32::MAX,
    ensures
        recording_problem(true, wav_file(samples).len() as u64, wav_file(samples)) is None,
{
    let f = wav_file(samples);
    assert(wav_header(2 * samples.len() as int).len() == 44);
    assert(f.len() == 44 + 2 * samples.len());
    assert(is_wav_header(f));
}

} // verus!
