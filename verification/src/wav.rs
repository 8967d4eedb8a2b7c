//! Byte layout of an uncompressed PCM WAV container and its encoder.
//!
//! The container is a RIFF file with one `fmt ` sub-chunk describing a fixed
//! profile (PCM, one channel, 22050 Hz, 8 bits per sample) and one `data`
//! sub-chunk holding the raw sample bytes verbatim.

use vstd::prelude::*;

use crate::le::{le16_at, le32_at, lemma_u16_le_value, lemma_u32_le_value, push_u16_le,
    push_u32_le, u16_le, u32_le};

verus! {

/// Audio format tag of uncompressed PCM.
pub const AUDIO_FORMAT_PCM: u16 = 1;

/// Number of channels of the fixed profile.
pub const NUM_CHANNELS: u16 = 1;

/// Samples per second of the fixed profile.
pub const SAMPLE_RATE: u32 = 22050;

/// Bytes consumed per second of playback: sample rate times block align.
pub const BYTE_RATE: u32 = 22050;

/// Bytes per complete sample frame across all channels.
pub const BLOCK_ALIGN: u16 = 1;

/// Bits per sample of the fixed profile.
pub const BITS_PER_SAMPLE: u16 = 8;

/// Size in bytes of the `fmt ` sub-chunk body.
pub const FMT_CHUNK_SIZE: u32 = 16;

/// Size in bytes of the header that precedes the sample data.
pub const HEADER_LEN: usize = 44;

/// Largest sample buffer the signed 32-bit chunk-size fields can describe:
/// the RIFF chunk size is the data length plus 36 and must fit.
pub const MAX_DATA_LEN: usize = 0x7fff_ffff - 36;

/// The four ASCII bytes `RIFF`.
pub open spec fn riff_tag() -> Seq<u8> {
    seq![0x52u8, 0x49u8, 0x46u8, 0x46u8]
}

/// The four ASCII bytes `WAVE`.
pub open spec fn wave_tag() -> Seq<u8> {
    seq![0x57u8, 0x41u8, 0x56u8, 0x45u8]
}

/// The four ASCII bytes `fmt ` (with a trailing space).
pub open spec fn fmt_tag() -> Seq<u8> {
    seq![0x66u8, 0x6du8, 0x74u8, 0x20u8]
}

/// The four ASCII bytes `data`.
pub open spec fn data_tag() -> Seq<u8> {
    seq![0x64u8, 0x61u8, 0x74u8, 0x61u8]
}

/// The 44 header bytes that precede a data section of `data_len` bytes.
pub open spec fn wav_header(data_len: nat) -> Seq<u8>
    recommends
        data_len <= MAX_DATA_LEN,
{
    riff_tag() + u32_le((data_len + 36) as u32) + wave_tag() + fmt_tag() + u32_le(FMT_CHUNK_SIZE)
        + u16_le(AUDIO_FORMAT_PCM) + u16_le(NUM_CHANNELS) + u32_le(SAMPLE_RATE) + u32_le(BYTE_RATE)
        + u16_le(BLOCK_ALIGN) + u16_le(BITS_PER_SAMPLE) + data_tag() + u32_le(data_len as u32)
}

/// The complete contents of the WAV file that encodes the samples `data`.
pub open spec fn wav_bytes(data: Seq<u8>) -> Seq<u8>
    recommends
        data.len() <= MAX_DATA_LEN,
{
    wav_header(data.len()) + data
}

/// Builds the complete WAV file contents for `samples`: the 44-byte header
/// followed by every sample byte verbatim, in order.
pub fn encode_wav(samples: &Vec<u8>) -> (out: Vec<u8>)
    requires
        samples@.len() <= MAX_DATA_LEN,
    ensures
        out@ == wav_bytes(samples@),
        out@.len() == HEADER_LEN + samples@.len(),
{
    let data_len: u32 = samples.len() as u32;
    let mut out: Vec<u8> = Vec::new();

    out.push(0x52);
    out.push(0x49);
    out.push(0x46);
    out.push(0x46);
    assert(out@ =~= riff_tag());
    push_u32_le(&mut out, data_len + 36);
    out.push(0x57);
    out.push(0x41);
    out.push(0x56);
    out.push(0x45);
    assert(out@ =~= riff_tag() + u32_le((samples@.len() + 36) as u32) + wave_tag());
    out.push(0x66);
    out.push(0x6d);
    out.push(0x74);
    out.push(0x20);
    push_u32_le(&mut out, FMT_CHUNK_SIZE);
    push_u16_le(&mut out, AUDIO_FORMAT_PCM);
    push_u16_le(&mut out, NUM_CHANNELS);
    push_u32_le(&mut out, SAMPLE_RATE);
    push_u32_le(&mut out, BYTE_RATE);
    push_u16_le(&mut out, BLOCK_ALIGN);
    push_u16_le(&mut out, BITS_PER_SAMPLE);
    out.push(0x64);
    out.push(0x61);
    out.push(0x74);
    out.push(0x61);
    push_u32_le(&mut out, data_len);
    assert(out@ =~= wav_header(samples@.len()));

    let ghost header = wav_header(samples@.len());
    let mut i: usize = 0;
    while i < samples.len()
        invariant
            i <= samples@.len(),
            out@ == header + samples@.subrange(0, i as int),
            header == wav_header(samples@.len()),
        decreases samples@.len() - i,
    {
        out.push(samples[i]);
        i = i + 1;
        assert(out@ =~= header + samples@.subrange(0, i as int));
    }
    assert(samples@.subrange(0, samples@.len() as int) =~= samples@);
    out
}

/// The encoded file is exactly 44 bytes longer than the sample data; an empty
/// buffer gives a 44-byte header-only file.
pub proof fn lemma_wav_len(data: Seq<u8>)
    ensures
        wav_bytes(data).len() == HEADER_LEN + data.len(),
{
}

/// The file opens with the tag `RIFF`, bytes 8 to 11 read `WAVE`, bytes 12 to
/// 15 read `fmt ` and bytes 36 to 39 read `data`, whatever the sample data.
pub proof fn lemma_wav_tags(data: Seq<u8>)
    ensures
        wav_bytes(data).subrange(0, 4) == riff_tag(),
        wav_bytes(data).subrange(8, 12) == wave_tag(),
        wav_bytes(data).subrange(12, 16) == fmt_tag(),
        wav_bytes(data).subrange(36, 40) == data_tag(),
{
    assert(wav_bytes(data).subrange(0, 4) =~= riff_tag());
    assert(wav_bytes(data).subrange(8, 12) =~= wave_tag());
    assert(wav_bytes(data).subrange(12, 16) =~= fmt_tag());
    assert(wav_bytes(data).subrange(36, 40) =~= data_tag());
}

/// The RIFF chunk-size field (bytes 4 to 7, little-endian) holds the data
/// length plus 36: the total file size minus the 8 bytes of tag and field.
pub proof fn lemma_chunk_size_field(data: Seq<u8>)
    requires
        data.len() <= MAX_DATA_LEN,
    ensures
        le32_at(wav_bytes(data), 4) == data.len() + 36,
{
    let v: u32 = (data.len() + 36) as u32;
    lemma_u32_le_value(v);
    assert(wav_bytes(data).subrange(4, 8) =~= u32_le(v));
}

/// The data sub-chunk size field (bytes 40 to 43, little-endian) holds the
/// data length exactly.
pub proof fn lemma_data_size_field(data: Seq<u8>)
    requires
        data.len() <= MAX_DATA_LEN,
    ensures
        le32_at(wav_bytes(data), 40) == data.len(),
{
    let v: u32 = data.len() as u32;
    lemma_u32_le_value(v);
    assert(wav_bytes(data).subrange(40, 44) =~= u32_le(v));
}

/// The format fields are the same in every encoded file: PCM format tag 1,
/// one channel, 22050 samples and 22050 bytes per second, block align 1,
/// 8 bits per sample, and a 16-byte `fmt ` body.
pub proof fn lemma_fixed_format_fields(data: Seq<u8>)
    ensures
        le32_at(wav_bytes(data), 16) == FMT_CHUNK_SIZE,
        le16_at(wav_bytes(data), 20) == AUDIO_FORMAT_PCM,
        le16_at(wav_bytes(data), 22) == NUM_CHANNELS,
        le32_at(wav_bytes(data), 24) == SAMPLE_RATE,
        le32_at(wav_bytes(data), 28) == BYTE_RATE,
        le16_at(wav_bytes(data), 32) == BLOCK_ALIGN,
        le16_at(wav_bytes(data), 34) == BITS_PER_SAMPLE,
{
    lemma_u32_le_value(FMT_CHUNK_SIZE);
    lemma_u16_le_value(AUDIO_FORMAT_PCM);
    lemma_u16_le_value(NUM_CHANNELS);
    lemma_u32_le_value(SAMPLE_RATE);
    lemma_u32_le_value(BYTE_RATE);
    lemma_u16_le_value(BLOCK_ALIGN);
    lemma_u16_le_value(BITS_PER_SAMPLE);
    assert(wav_bytes(data).subrange(16, 20) =~= u32_le(FMT_CHUNK_SIZE));
    assert(wav_bytes(data).subrange(20, 22) =~= u16_le(AUDIO_FORMAT_PCM));
    assert(wav_bytes(data).subrange(22, 24) =~= u16_le(NUM_CHANNELS));
    assert(wav_bytes(data).subrange(24, 28) =~= u32_le(SAMPLE_RATE));
    assert(wav_bytes(data).subrange(28, 32) =~= u32_le(BYTE_RATE));
    assert(wav_bytes(data).subrange(32, 34) =~= u16_le(BLOCK_ALIGN));
    assert(wav_bytes(data).subrange(34, 36) =~= u16_le(BITS_PER_SAMPLE));
}

/// Round trip: the bytes after the header are the sample data, unmodified and
/// in order.
pub proof fn lemma_data_round_trip(data: Seq<u8>)
    ensures
        wav_bytes(data).subrange(44, 44 + data.len() as int) == data,
{
    assert(wav_bytes(data).subrange(44, 44 + data.len() as int) =~= data);
}

} // verus!
