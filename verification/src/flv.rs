//! Byte-exact FLV tag codec: the file header, the 11-byte tag header, and
//! the AAC / AVC packet sub-headers with their signed 24-bit composition
//! time offsets.

use vstd::prelude::*;

verus! {

use crate::errors::{ErrorKind, MixerError};

/// The tag type of an FLV media tag.
#[derive(Clone, Copy, Debug, PartialEq, Eq, Structural)]
pub enum MediaType {
    Audio,
    Video,
}

/// The parsed AVCVIDEOPACKET sub-header of a video tag payload.
#[derive(Clone, Copy, Debug, PartialEq, Eq, Structural)]
pub enum AvcPacketType {
    SequenceHeader,
    Nalu { composition_offset_millis: i32, seekable: bool },
    SequenceEnd,
}

/// The parsed AACAUDIODATA sub-header of an audio tag payload.
#[derive(Clone, Copy, Debug, PartialEq, Eq, Structural)]
pub enum AacAudioPacketType {
    SequenceHeader,
    Raw,
}

/// The byte on the wire for each tag type: 8 is audio, 9 is video.
pub open spec fn spec_media_byte(m: MediaType) -> u8 {
    match m {
        MediaType::Audio => 8,
        MediaType::Video => 9,
    }
}

/// Big-endian bytes of a 24-bit unsigned value.
pub open spec fn spec_u24_be(x: u32) -> Seq<u8> {
    seq![((x >> 16) & 0xff) as u8, ((x >> 8) & 0xff) as u8, (x & 0xff) as u8]
}

/// Big-endian bytes of a 32-bit unsigned value.
pub open spec fn spec_u32_be(x: u32) -> Seq<u8> {
    seq![
        ((x >> 24) & 0xff) as u8,
        ((x >> 16) & 0xff) as u8,
        ((x >> 8) & 0xff) as u8,
        (x & 0xff) as u8,
    ]
}

/// The 24-bit unsigned value held by three big-endian bytes.
pub open spec fn spec_u24_val(b0: u8, b1: u8, b2: u8) -> u32 {
    (((b0 as u32) << 16) | ((b1 as u32) << 8)) | (b2 as u32)
}

/// The signed 24-bit value held by three big-endian bytes: bit 23 is the
/// sign bit and is extended through bits 24 to 31.
pub open spec fn spec_i24_val(b0: u8, b1: u8, b2: u8) -> i32 {
    let u = spec_u24_val(b0, b1, b2);
    if u < 0x800000 {
        u as i32
    } else {
        (u | 0xff000000) as i32
    }
}

/// Big-endian bytes of a signed 24-bit value in `[-0x800000, 0x7fffff]`.
pub open spec fn spec_i24_be(v: i32) -> Seq<u8> {
    spec_u24_be((v & 0xffffff) as u32)
}

/// The low 24 bits of a signed 32-bit timestamp.
pub open spec fn spec_ts_low24(ts: i32) -> u32 {
    (ts & 0xffffff) as u32
}

/// The high 8 bits of a signed 32-bit timestamp, holding its sign bit.
pub open spec fn spec_ts_high8(ts: i32) -> u8 {
    ((ts >> 24) & 0xff) as u8
}

/// The 13 bytes that begin every FLV stream: the 9-byte signature header
/// (video plus audio) followed by a zero `previous_tag_size`.
pub open spec fn spec_flv_header() -> Seq<u8> {
    seq![0x46u8, 0x4cu8, 0x56u8, 0x01u8, 0x05u8, 0u8, 0u8, 0u8, 0x09u8, 0u8, 0u8, 0u8, 0u8]
}

/// The 11-byte FLV tag header: tag type, 24-bit data size, the timestamp
/// split low-24 / high-8, and a zero stream id.
pub open spec fn spec_tag_header(tag_type: u8, data_size: u32, ts: i32) -> Seq<u8> {
    seq![tag_type] + spec_u24_be(data_size) + spec_u24_be(spec_ts_low24(ts))
        + seq![spec_ts_high8(ts)] + spec_u24_be(0)
}

/// Appends the big-endian bytes of a 24-bit value.
fn push_u24_be(out: &mut Vec<u8>, x: u32)
    requires
        x < 0x1000000,
    ensures
        final(out)@ == old(out)@ + spec_u24_be(x),
{
    proof {
        assert((x >> 16) & 0xff < 256 && (x >> 8) & 0xff < 256 && x & 0xff < 256)
            by (bit_vector);
    }
    out.push(((x >> 16) & 0xff) as u8);
    out.push(((x >> 8) & 0xff) as u8);
    out.push((x & 0xff) as u8);
    proof {
        assert(final(out)@ =~= old(out)@ + spec_u24_be(x));
    }
}

/// Appends the big-endian bytes of a 32-bit value.
pub(crate) fn push_u32_be(out: &mut Vec<u8>, x: u32)
    ensures
        final(out)@ == old(out)@ + spec_u32_be(x),
{
    proof {
        assert((x >> 24) & 0xff < 256 && (x >> 16) & 0xff < 256 && (x >> 8) & 0xff < 256
            && x & 0xff < 256) by (bit_vector);
    }
    out.push(((x >> 24) & 0xff) as u8);
    out.push(((x >> 16) & 0xff) as u8);
    out.push(((x >> 8) & 0xff) as u8);
    out.push((x & 0xff) as u8);
    proof {
        assert(final(out)@ =~= old(out)@ + spec_u32_be(x));
    }
}

/// Appends a whole byte buffer.
pub(crate) fn append_bytes(out: &mut Vec<u8>, data: &Vec<u8>)
    ensures
        final(out)@ == old(out)@ + data@,
{
    let mut i: usize = 0;
    while i < data.len()
        invariant
            i <= data@.len(),
            out@ == old(out)@ + data@.take(i as int),
        decreases data@.len() - i,
    {
        out.push(data[i]);
        proof {
            assert(data@.take(i + 1 as int) =~= data@.take(i as int).push(data@[i as int]));
        }
        i = i + 1;
    }
    proof {
        assert(data@.take(data@.len() as int) =~= data@);
    }
}

/// Appends the FLV signature header and the initial zero
/// `previous_tag_size`.
pub fn write_flv_header(out: &mut Vec<u8>)
    ensures
        final(out)@ == old(out)@ + spec_flv_header(),
{
    out.push(0x46);
    out.push(0x4c);
    out.push(0x56);
    out.push(0x01);
    out.push(0x05);
    out.push(0x00);
    out.push(0x00);
    out.push(0x00);
    out.push(0x09);
    out.push(0x00);
    out.push(0x00);
    out.push(0x00);
    out.push(0x00);
    proof {
        assert(final(out)@ =~= old(out)@ + spec_flv_header());
    }
}

/// Appends the 11-byte tag header for one media tag.
pub fn write_media_tag_header(
    out: &mut Vec<u8>,
    media_type: MediaType,
    data_size: u32,
    decode_timestamp: i32,
)
    requires
        data_size < 0x1000000,
    ensures
        final(out)@ == old(out)@
            + spec_tag_header(spec_media_byte(media_type), data_size, decode_timestamp),
{
    let tag_type: u8 = match media_type {
        MediaType::Audio => 8,
        MediaType::Video => 9,
    };
    out.push(tag_type);
    push_u24_be(out, data_size);
    proof {
        assert(0 <= decode_timestamp & 0xffffff < 0x1000000) by (bit_vector);
        assert(0 <= (decode_timestamp >> 24) & 0xff < 256) by (bit_vector);
    }
    push_u24_be(out, (decode_timestamp & 0xffffff) as u32);
    out.push(((decode_timestamp >> 24) & 0xff) as u8);
    push_u24_be(out, 0);
    proof {
        assert(final(out)@ =~= old(out)@
            + spec_tag_header(spec_media_byte(media_type), data_size, decode_timestamp));
    }
}

/// Appends the 11-byte tag header for a video tag.
pub fn write_video_tag_header(out: &mut Vec<u8>, data_size: u32, decode_timestamp: i32)
    requires
        data_size < 0x1000000,
    ensures
        final(out)@ == old(out)@ + spec_tag_header(9, data_size, decode_timestamp),
{
    write_media_tag_header(out, MediaType::Video, data_size, decode_timestamp);
}

/// Appends the 11-byte tag header for an audio tag.
pub fn write_audio_tag_header(out: &mut Vec<u8>, data_size: u32, decode_timestamp: i32)
    requires
        data_size < 0x1000000,
    ensures
        final(out)@ == old(out)@ + spec_tag_header(8, data_size, decode_timestamp),
{
    write_media_tag_header(out, MediaType::Audio, data_size, decode_timestamp);
}

/// What parsing an audio tag payload's first two bytes yields: the byte 0xAF
/// announces AAC-LC, then byte 1 selects the packet type.
pub open spec fn spec_parse_audio_header(data: Seq<u8>) -> Result<AacAudioPacketType, MixerError> {
    if data.len() < 1 {
        Err(MixerError { kind: ErrorKind::Io })
    } else if data[0] != 0xAF {
        Err(MixerError { kind: ErrorKind::InvalidData })
    } else if data.len() < 2 {
        Err(MixerError { kind: ErrorKind::Io })
    } else if data[1] == 0 {
        Ok(AacAudioPacketType::SequenceHeader)
    } else if data[1] == 1 {
        Ok(AacAudioPacketType::Raw)
    } else {
        Err(MixerError { kind: ErrorKind::InvalidData })
    }
}

/// What parsing a video tag payload's leading bytes yields: byte 0 carries
/// the frame type (1 seekable, 2 inter) and the AVC codec id 7; byte 1
/// selects the packet type; a NALU carries a signed 24-bit composition
/// time offset in bytes 2 to 4.
pub open spec fn spec_parse_video_header(data: Seq<u8>) -> Result<AvcPacketType, MixerError> {
    if data.len() < 1 {
        Err(MixerError { kind: ErrorKind::Io })
    } else if data[0] != 0x17 && data[0] != 0x27 {
        Err(MixerError { kind: ErrorKind::InvalidData })
    } else if data.len() < 2 {
        Err(MixerError { kind: ErrorKind::Io })
    } else if data[1] == 0 {
        Ok(AvcPacketType::SequenceHeader)
    } else if data[1] == 2 {
        Ok(AvcPacketType::SequenceEnd)
    } else if data[1] == 1 {
        if data.len() < 5 {
            Err(MixerError { kind: ErrorKind::Io })
        } else {
            Ok(AvcPacketType::Nalu {
                composition_offset_millis: spec_i24_val(data[2], data[3], data[4]),
                seekable: data[0] == 0x17,
            })
        }
    } else {
        Err(MixerError { kind: ErrorKind::InvalidData })
    }
}

/// Parses the AACAUDIODATA sub-header at the front of an audio tag payload.
pub fn read_audio_header(data: &Vec<u8>) -> (r: Result<AacAudioPacketType, MixerError>)
    ensures
        r == spec_parse_audio_header(data@),
{
    if data.len() < 1 {
        return Err(MixerError { kind: ErrorKind::Io });
    }
    if data[0] != 0xAF {
        return Err(MixerError { kind: ErrorKind::InvalidData });
    }
    if data.len() < 2 {
        return Err(MixerError { kind: ErrorKind::Io });
    }
    match data[1] {
        0 => Ok(AacAudioPacketType::SequenceHeader),
        1 => Ok(AacAudioPacketType::Raw),
        _ => Err(MixerError { kind: ErrorKind::InvalidData }),
    }
}

/// Reads the signed 24-bit big-endian value held by three bytes.
fn read_i24_be(b0: u8, b1: u8, b2: u8) -> (r: i32)
    ensures
        r == spec_i24_val(b0, b1, b2),
{
    let u: u32 = (((b0 as u32) << 16) | ((b1 as u32) << 8)) | (b2 as u32);
    if u < 0x800000 {
        proof {
            assert(u < 0x800000 ==> u <= 0x7fffff) by (bit_vector);
        }
        u as i32
    } else {
        #[verifier::truncate]
        let r = (u | 0xff000000) as i32;
        r
    }
}

/// Parses the VIDEODATA and AVCVIDEOPACKET sub-headers at the front of a
/// video tag payload.
pub fn read_video_header(data: &Vec<u8>) -> (r: Result<AvcPacketType, MixerError>)
    ensures
        r == spec_parse_video_header(data@),
{
    if data.len() < 1 {
        return Err(MixerError { kind: ErrorKind::Io });
    }
    let seekable = match data[0] {
        0x17 => true,
        0x27 => false,
        _ => {
            return Err(MixerError { kind: ErrorKind::InvalidData });
        },
    };
    if data.len() < 2 {
        return Err(MixerError { kind: ErrorKind::Io });
    }
    match data[1] {
        0 => Ok(AvcPacketType::SequenceHeader),
        2 => Ok(AvcPacketType::SequenceEnd),
        1 => {
            if data.len() < 5 {
                return Err(MixerError { kind: ErrorKind::Io });
            }
            let composition_offset_millis = read_i24_be(data[2], data[3], data[4]);
            Ok(AvcPacketType::Nalu { composition_offset_millis, seekable })
        },
        _ => Err(MixerError { kind: ErrorKind::InvalidData }),
    }
}

/// The AVCVIDEOPACKET packet-type code of a parsed video sub-header.
pub open spec fn spec_avc_code(pt: AvcPacketType) -> u8 {
    match pt {
        AvcPacketType::SequenceHeader => 0,
        AvcPacketType::Nalu { .. } => 1,
        AvcPacketType::SequenceEnd => 2,
    }
}

/// The composition time offset a video sub-header carries: zero except in
/// a NALU.
pub open spec fn spec_avc_offset(pt: AvcPacketType) -> i32 {
    match pt {
        AvcPacketType::Nalu { composition_offset_millis, .. } => composition_offset_millis,
        _ => 0,
    }
}

/// Whether the tag is marked as a seekable keyframe: sequence headers and
/// sequence ends are, a NALU says so itself.
pub open spec fn spec_avc_seekable(pt: AvcPacketType) -> bool {
    match pt {
        AvcPacketType::Nalu { seekable, .. } => seekable,
        _ => true,
    }
}

/// The VIDEODATA info byte: frame type 1 (seekable) or 2 in the high
/// nibble, AVC codec id 7 in the low nibble.
pub open spec fn spec_frame_byte(seekable: bool) -> u8 {
    if seekable {
        0x17
    } else {
        0x27
    }
}

/// The full wire form of one video tag: tag header, VIDEODATA byte,
/// AVCVIDEOPACKET header, the payload, then `previous_tag_size`, which is
/// the 11 header bytes plus the data size.
pub open spec fn spec_video_tag(ts: i32, pt: AvcPacketType, data: Seq<u8>) -> Seq<u8> {
    let ds = (data.len() + 5) as u32;
    spec_tag_header(9, ds, ts) + seq![spec_frame_byte(spec_avc_seekable(pt))]
        + seq![spec_avc_code(pt)] + spec_i24_be(spec_avc_offset(pt)) + data
        + spec_u32_be((ds + 11) as u32)
}

/// Appends the big-endian bytes of a signed 24-bit value.
fn push_i24_be(out: &mut Vec<u8>, v: i32)
    requires
        -0x800000 <= v < 0x800000,
    ensures
        final(out)@ == old(out)@ + spec_i24_be(v),
{
    proof {
        assert(0 <= v & 0xffffff < 0x1000000) by (bit_vector);
    }
    push_u24_be(out, (v & 0xffffff) as u32);
}

/// Appends one complete video tag: header, sub-headers, payload and the
/// trailing `previous_tag_size`.
pub fn write_video_tag(out: &mut Vec<u8>, decode_ts_millis: i32, packet_type: AvcPacketType, data: &Vec<u8>)
    requires
        data@.len() + 5 < 0x1000000,
        -0x800000 <= spec_avc_offset(packet_type) < 0x800000,
    ensures
        final(out)@ == old(out)@ + spec_video_tag(decode_ts_millis, packet_type, data@),
{
    let (packet_type_code, composition_offset_millis, seekable): (u8, i32, bool) =
        match packet_type {
            AvcPacketType::SequenceHeader => (0, 0, true),
            AvcPacketType::SequenceEnd => (2, 0, true),
            AvcPacketType::Nalu { composition_offset_millis, seekable } =>
                (1, composition_offset_millis, seekable),
        };

    // Data length is the payload plus one VIDEODATA byte plus the 4-byte
    // AVCVIDEOPACKET header.
    let data_size: u32 = (data.len() as u32) + 5;

    write_video_tag_header(out, data_size, decode_ts_millis);

    let frametype: u8 = if seekable { 1u8 << 4 } else { 2u8 << 4 };
    let codec_id: u8 = 7;
    out.push(frametype | codec_id);
    proof {
        assert((1u8 << 4) | 7 == 0x17u8 && (2u8 << 4) | 7 == 0x27u8) by (bit_vector);
    }

    out.push(packet_type_code);
    push_i24_be(out, composition_offset_millis);

    append_bytes(out, data);

    push_u32_be(out, data_size + 11);
    proof {
        assert(final(out)@ =~= old(out)@
            + spec_video_tag(decode_ts_millis, packet_type, data@));
    }
}

/// Appends one NALU video tag for a frame stamped in 90 kHz ticks, as
/// encoders hand them out: the FLV timestamp is the decode time in
/// milliseconds, and the composition time offset is the
/// presentation-minus-decode difference in milliseconds.
pub fn write_video_tag_from_ticks(
    out: &mut Vec<u8>,
    decode_ts_ticks: i64,
    presentation_ts_ticks: i64,
    seekable: bool,
    data: &Vec<u8>,
)
    requires
        0 <= decode_ts_ticks <= presentation_ts_ticks,
        decode_ts_ticks / 90 <= i32::MAX,
        (presentation_ts_ticks - decode_ts_ticks) / 90 < 0x800000,
        data@.len() + 5 < 0x1000000,
    ensures
        final(out)@ == old(out)@ + spec_video_tag(
            ((decode_ts_ticks / 90) as i32),
            AvcPacketType::Nalu {
                composition_offset_millis: (((presentation_ts_ticks - decode_ts_ticks) / 90) as i32),
                seekable,
            },
            data@,
        ),
{
    let decode_ms: u64 = (decode_ts_ticks as u64) / 90;
    let offset_ms: u64 = ((presentation_ts_ticks - decode_ts_ticks) as u64) / 90;
    write_video_tag(
        out,
        decode_ms as i32,
        AvcPacketType::Nalu { composition_offset_millis: offset_ms as i32, seekable },
        data,
    );
}

/// Every emitted tag ends with a `previous_tag_size` of exactly 11 plus the
/// data size: the last four bytes of a video tag's wire form are the
/// big-endian encoding of that count.
pub proof fn lemma_video_tag_trailer(ts: i32, pt: AvcPacketType, data: Seq<u8>)
    requires
        data.len() + 5 < 0x1000000,
    ensures
        spec_video_tag(ts, pt, data).len() == data.len() + 20,
        spec_video_tag(ts, pt, data).subrange(data.len() + 16 as int, data.len() + 20 as int)
            == spec_u32_be(((data.len() + 16) as u32)),
{
    let s = spec_video_tag(ts, pt, data);
    assert(s.subrange(data.len() + 16 as int, data.len() + 20 as int)
        =~= spec_u32_be((((data.len() + 5) as u32) + 11) as u32));
}

/// The 32-bit unsigned value held by four big-endian bytes.
pub open spec fn spec_u32_val(b0: u8, b1: u8, b2: u8, b3: u8) -> u32 {
    ((((b0 as u32) << 24) | ((b1 as u32) << 16)) | ((b2 as u32) << 8)) | (b3 as u32)
}

/// Reads the unsigned 32-bit big-endian value at `pos`.
pub(crate) fn read_u32_at(data: &Vec<u8>, pos: usize) -> (r: u32)
    requires
        pos + 4 <= data@.len(),
    ensures
        r == spec_u32_val(data@[pos as int], data@[pos + 1], data@[pos + 2], data@[pos + 3]),
{
    let n: usize = data.len();
    proof {
        assert(pos + 4 <= n);
    }
    ((((data[pos] as u32) << 24) | ((data[pos + 1] as u32) << 16)) | ((data[pos + 2] as u32) << 8))
        | (data[pos + 3] as u32)
}

/// Parses the AACAUDIODATA sub-header that starts at `pos`.
pub(crate) fn read_audio_header_at(data: &Vec<u8>, pos: usize) -> (r: Result<
    AacAudioPacketType,
    MixerError,
>)
    requires
        pos <= data@.len(),
    ensures
        r == spec_parse_audio_header(data@.skip(pos as int)),
{
    let ghost tail = data@.skip(pos as int);
    proof {
        assert(tail.len() == data@.len() - pos);
        assert forall|i: int| 0 <= i < tail.len() implies tail[i] == data@[pos + i] by {}
    }
    if data.len() - pos < 1 {
        return Err(MixerError { kind: ErrorKind::Io });
    }
    if data[pos] != 0xAF {
        return Err(MixerError { kind: ErrorKind::InvalidData });
    }
    if data.len() - pos < 2 {
        return Err(MixerError { kind: ErrorKind::Io });
    }
    match data[pos + 1] {
        0 => Ok(AacAudioPacketType::SequenceHeader),
        1 => Ok(AacAudioPacketType::Raw),
        _ => Err(MixerError { kind: ErrorKind::InvalidData }),
    }
}

/// Parses the VIDEODATA and AVCVIDEOPACKET sub-headers that start at `pos`.
pub(crate) fn read_video_header_at(data: &Vec<u8>, pos: usize) -> (r: Result<
    AvcPacketType,
    MixerError,
>)
    requires
        pos <= data@.len(),
    ensures
        r == spec_parse_video_header(data@.skip(pos as int)),
{
    let ghost tail = data@.skip(pos as int);
    proof {
        assert(tail.len() == data@.len() - pos);
        assert forall|i: int| 0 <= i < tail.len() implies tail[i] == data@[pos + i] by {}
    }
    if data.len() - pos < 1 {
        return Err(MixerError { kind: ErrorKind::Io });
    }
    let seekable = match data[pos] {
        0x17 => true,
        0x27 => false,
        _ => {
            return Err(MixerError { kind: ErrorKind::InvalidData });
        },
    };
    if data.len() - pos < 2 {
        return Err(MixerError { kind: ErrorKind::Io });
    }
    match data[pos + 1] {
        0 => Ok(AvcPacketType::SequenceHeader),
        2 => Ok(AvcPacketType::SequenceEnd),
        1 => {
            if data.len() - pos < 5 {
                return Err(MixerError { kind: ErrorKind::Io });
            }
            let composition_offset_millis = read_i24_be(data[pos + 2], data[pos + 3], data[pos + 4]);
            Ok(AvcPacketType::Nalu { composition_offset_millis, seekable })
        },
        _ => Err(MixerError { kind: ErrorKind::InvalidData }),
    }
}

/// The fields of a parsed 11-byte FLV tag header.
#[derive(Clone, Copy, Debug, PartialEq, Eq, Structural)]
pub struct TagHeader {
    pub datasize: u32,
    pub tagtype: u8,
    pub decode_ts: i32,
}

/// Reassembles a signed 32-bit timestamp from its low 24 bits and its high
/// byte.
pub open spec fn spec_decode_ts(lo: u32, hi: u8) -> i32 {
    (((hi as u32) << 24) | lo) as i32
}

/// What parsing an 11-byte tag header yields.  A stream id other than zero
/// marks the input as corrupt.
pub open spec fn spec_parse_tag_header(data: Seq<u8>) -> Result<TagHeader, MixerError> {
    if data.len() < 11 {
        Err(MixerError { kind: ErrorKind::Io })
    } else if spec_u24_val(data[8], data[9], data[10]) != 0 {
        Err(MixerError { kind: ErrorKind::InvalidData })
    } else {
        Ok(TagHeader {
            datasize: spec_u24_val(data[1], data[2], data[3]),
            tagtype: data[0],
            decode_ts: spec_decode_ts(spec_u24_val(data[4], data[5], data[6]), data[7]),
        })
    }
}

/// Reads the unsigned 24-bit big-endian value held by three bytes.
fn read_u24_be(b0: u8, b1: u8, b2: u8) -> (r: u32)
    ensures
        r == spec_u24_val(b0, b1, b2),
        r < 0x1000000,
{
    proof {
        assert((((b0 as u32) << 16) | ((b1 as u32) << 8)) | (b2 as u32) < 0x1000000)
            by (bit_vector);
    }
    (((b0 as u32) << 16) | ((b1 as u32) << 8)) | (b2 as u32)
}

/// Parses the 11-byte tag header that starts at `pos`.
pub fn read_tag_header(data: &Vec<u8>, pos: usize) -> (r: Result<TagHeader, MixerError>)
    ensures
        pos + 11 <= data@.len() ==> r == spec_parse_tag_header(
            data@.subrange(pos as int, pos + 11 as int),
        ),
        pos + 11 > data@.len() ==> r == Err::<TagHeader, MixerError>(
            MixerError { kind: ErrorKind::Io },
        ),
        r matches Ok(h) ==> h.datasize < 0x1000000,
{
    if data.len() < 11 || pos > data.len() - 11 {
        return Err(MixerError { kind: ErrorKind::Io });
    }
    let tagtype = data[pos];
    let datasize = read_u24_be(data[pos + 1], data[pos + 2], data[pos + 3]);
    let low_decode_ts = read_u24_be(data[pos + 4], data[pos + 5], data[pos + 6]);
    let high_decode_ts = data[pos + 7];
    let stream_id = read_u24_be(data[pos + 8], data[pos + 9], data[pos + 10]);
    if stream_id != 0 {
        return Err(MixerError { kind: ErrorKind::InvalidData });
    }
    #[verifier::truncate]
    let decode_ts = (((high_decode_ts as u32) << 24) | low_decode_ts) as i32;

    Ok(TagHeader { datasize, tagtype, decode_ts })
}

/// Writing a tag header and re-parsing it reproduces the tag type, the data
/// size and the timestamp exactly, for every signed 32-bit timestamp.
pub proof fn lemma_tag_header_roundtrip(tag_type: u8, data_size: u32, ts: i32)
    requires
        data_size < 0x1000000,
    ensures
        spec_parse_tag_header(spec_tag_header(tag_type, data_size, ts))
            == Ok::<TagHeader, MixerError>(
            TagHeader { datasize: data_size, tagtype: tag_type, decode_ts: ts },
        ),
{
    let s = spec_tag_header(tag_type, data_size, ts);
    assert(s.len() == 11);
    let lo = spec_ts_low24(ts);
    let hi = spec_ts_high8(ts);
    assert(s[0] == tag_type);
    assert(s[1] == ((data_size >> 16) & 0xff) as u8 && s[2] == ((data_size >> 8) & 0xff) as u8
        && s[3] == (data_size & 0xff) as u8);
    assert(s[4] == ((lo >> 16) & 0xff) as u8 && s[5] == ((lo >> 8) & 0xff) as u8
        && s[6] == (lo & 0xff) as u8);
    assert(s[7] == hi);
    assert(s[8] == ((0u32 >> 16) & 0xff) as u8 && s[9] == ((0u32 >> 8) & 0xff) as u8
        && s[10] == (0u32 & 0xff) as u8);
    assert(spec_u24_val(((0u32 >> 16) & 0xff) as u8, ((0u32 >> 8) & 0xff) as u8,
        (0u32 & 0xff) as u8) == 0) by (bit_vector);
    assert(spec_u24_val(((data_size >> 16) & 0xff) as u8, ((data_size >> 8) & 0xff) as u8,
        (data_size & 0xff) as u8) == data_size) by (bit_vector)
        requires
            data_size < 0x1000000,
    ;
    assert(spec_u24_val(((lo >> 16) & 0xff) as u8, ((lo >> 8) & 0xff) as u8, (lo & 0xff) as u8)
        == lo) by (bit_vector)
        requires
            lo == (ts & 0xffffff) as u32,
    ;
    assert(spec_decode_ts(lo, hi) == ts) by (bit_vector)
        requires
            lo == (ts & 0xffffff) as u32,
            hi == ((ts >> 24) & 0xff) as u8,
    ;
}

/// The full wire form of one mixer-emitted media tag: the 11-byte header,
/// the payload passed through unchanged, then `previous_tag_size`, which is
/// 11 plus the data size.
pub open spec fn spec_media_tag(tag_byte: u8, data: Seq<u8>, ts: i32) -> Seq<u8> {
    spec_tag_header(tag_byte, data.len() as u32, ts) + data
        + spec_u32_be(((data.len() + 11) as u32))
}

/// Every mixer-emitted tag ends with a `previous_tag_size` of exactly 11
/// plus the data size.
pub proof fn lemma_media_tag_trailer(tag_byte: u8, data: Seq<u8>, ts: i32)
    requires
        data.len() < 0x1000000,
    ensures
        spec_media_tag(tag_byte, data, ts).len() == data.len() + 15,
        spec_media_tag(tag_byte, data, ts).subrange(
            data.len() + 11 as int,
            data.len() + 15 as int,
        ) == spec_u32_be(((data.len() + 11) as u32)),
{
    let s = spec_media_tag(tag_byte, data, ts);
    assert(s.subrange(data.len() + 11 as int, data.len() + 15 as int)
        =~= spec_u32_be(((data.len() + 11) as u32)));
}

/// Audio parsing rejects as invalid exactly the payloads whose first byte
/// is not the AAC-LC marker 0xAF, however long they are.
pub proof fn lemma_audio_marker_rejected(data: Seq<u8>)
    requires
        data.len() >= 1,
        data[0] != 0xAF,
    ensures
        spec_parse_audio_header(data) == Err::<AacAudioPacketType, MixerError>(
            MixerError { kind: ErrorKind::InvalidData },
        ),
{
}

/// Video parsing rejects as invalid exactly the payloads whose first byte
/// is neither 0x17 (seekable AVC) nor 0x27 (inter AVC).
pub proof fn lemma_video_marker_rejected(data: Seq<u8>)
    requires
        data.len() >= 1,
        data[0] != 0x17,
        data[0] != 0x27,
    ensures
        spec_parse_video_header(data) == Err::<AvcPacketType, MixerError>(
            MixerError { kind: ErrorKind::InvalidData },
        ),
{
}

/// Signed 24-bit composition offsets survive a write / read round trip for
/// every value in `[-0x800000, 0x7fffff]`.
pub proof fn lemma_i24_roundtrip(v: i32)
    requires
        -0x800000 <= v < 0x800000,
    ensures
        spec_i24_val(spec_i24_be(v)[0], spec_i24_be(v)[1], spec_i24_be(v)[2]) == v,
{
    let u = (v & 0xffffff) as u32;
    let b0 = ((u >> 16) & 0xff) as u8;
    let b1 = ((u >> 8) & 0xff) as u8;
    let b2 = (u & 0xff) as u8;
    assert(spec_i24_be(v)[0] == b0 && spec_i24_be(v)[1] == b1 && spec_i24_be(v)[2] == b2);
    assert({
        let w = (((b0 as u32) << 16) | ((b1 as u32) << 8)) | (b2 as u32);
        (if w < 0x800000 { w as i32 } else { (w | 0xff000000) as i32 }) == v
    }) by (bit_vector)
        requires
            u == (v & 0xffffff) as u32,
            b0 == ((u >> 16) & 0xff) as u8,
            b1 == ((u >> 8) & 0xff) as u8,
            b2 == (u & 0xff) as u8,
            -0x800000 <= v < 0x800000,
    ;
}

} // verus!
