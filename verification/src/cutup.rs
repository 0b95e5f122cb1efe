//! The offline FLV remix core: scanning a whole FLV byte stream into a
//! seek map, shuffling its audio in coarse slices, and dumping the known
//! tags back out in timestamp order with rewritten tag-header timestamps.

use vstd::prelude::*;
use rand::seq::SliceRandom;

verus! {

use crate::errors::{ErrorKind, MixerError};
use crate::flv::{
    AacAudioPacketType,
    AvcPacketType,
    append_bytes,
    push_u32_be,
    read_audio_header_at,
    read_tag_header,
    read_u32_at,
    read_video_header_at,
    spec_flv_header,
    spec_parse_audio_header,
    spec_parse_tag_header,
    spec_parse_video_header,
    spec_ts_high8,
    spec_ts_low24,
    spec_u32_be,
    spec_u32_val,
    write_flv_header,
};

/// One stored tag's place in the source bytes: where it starts and how many
/// bytes it spans (11 header bytes plus its payload).
#[derive(Clone, Copy, Debug, PartialEq, Eq, Structural)]
pub struct FileRange {
    pub offset: u64,
    pub length: u32,
}

/// A video NALU tag found by the scan.
#[derive(Clone, Copy, Debug, PartialEq, Eq, Structural)]
pub struct VideoNaluTag {
    pub decode_timestamp: i32,
    pub composition_time_offset: i32,
    pub seekable: bool,
    pub range: FileRange,
}

/// A raw audio tag found by the scan.
#[derive(Clone, Copy, Debug, PartialEq, Eq, Structural)]
pub struct AudioTag {
    pub timestamp: i32,
    pub range: FileRange,
}

/// Everything a scan learns about an FLV stream: where the sequence
/// headers, the end-of-sequence tag and every media tag sit.
#[derive(Debug)]
pub struct SeekMap {
    pub audio_sequence_header: FileRange,
    pub video_sequence_header: FileRange,
    pub video_end_of_sequence: FileRange,
    pub end_of_sequence_timestamp: i32,
    pub audio_tags: Vec<AudioTag>,
    pub video_tags: Vec<VideoNaluTag>,
}

impl FileRange {
    /// Whether the whole range lies within a source of `len` bytes.
    pub open spec fn spec_in_bounds(self, len: int) -> bool {
        self.offset + self.length <= len
    }

    /// Copies the range out of an in-memory source, replacing `buf`.
    pub fn read(&self, source: &Vec<u8>, buf: &mut Vec<u8>) -> (r: Result<(), MixerError>)
        ensures
            self.spec_in_bounds(source@.len() as int) ==> {
                &&& r is Ok
                &&& final(buf)@ == source@.subrange(
                    self.offset as int,
                    self.offset + self.length,
                )
            },
            !self.spec_in_bounds(source@.len() as int) ==> {
                &&& r == Err::<(), MixerError>(MixerError { kind: ErrorKind::Io })
                &&& *final(buf) == *old(buf)
            },
    {
        if (source.len() as u64) < self.offset
            || ((source.len() as u64) - self.offset) < (self.length as u64) {
            return Err(MixerError { kind: ErrorKind::Io });
        }
        buf.clear();
        let n: usize = source.len();
        let start: usize = self.offset as usize;
        let count: usize = self.length as usize;
        let mut i: usize = 0;
        while i < count
            invariant
                count == self.length,
                start == self.offset,
                n == source@.len(),
                start + count <= n,
                i <= count,
                buf@ == source@.subrange(start as int, start + i),
            decreases count - i,
        {
            buf.push(source[start + i]);
            proof {
                assert(source@.subrange(start as int, start + i + 1)
                    =~= source@.subrange(start as int, start + i).push(source@[start + i]));
            }
            i = i + 1;
        }
        Ok(())
    }
}

/// A stored tag's bytes with the timestamp in its 11-byte header rewritten
/// to `ts`, split low-24 / high-8 as the tag header demands.
pub open spec fn spec_patch_ts(t: Seq<u8>, ts: i32) -> Seq<u8> {
    t.update(4, ((spec_ts_low24(ts) >> 16) & 0xff) as u8).update(
        5,
        ((spec_ts_low24(ts) >> 8) & 0xff) as u8,
    ).update(6, (spec_ts_low24(ts) & 0xff) as u8).update(7, spec_ts_high8(ts))
}

/// What one re-emitted tag contributes to the output: its source bytes with
/// the timestamp rewritten, then `previous_tag_size`, which is the tag's
/// whole stored length.
pub open spec fn spec_tag_out(src: Seq<u8>, range: FileRange, ts: i32) -> Seq<u8> {
    spec_patch_ts(src.subrange(range.offset as int, range.offset + range.length), ts)
        + spec_u32_be(range.length)
}

/// Copies one stored tag to `dest` with its header timestamp rewritten,
/// then writes the `previous_tag_size` trailer.  `buf` is scratch space.
pub fn write_tag_with_timestamp(
    range: FileRange,
    timestamp: i32,
    source: &Vec<u8>,
    dest: &mut Vec<u8>,
    buf: &mut Vec<u8>,
) -> (r: Result<(), MixerError>)
    requires
        range.length >= 8,
    ensures
        range.spec_in_bounds(source@.len() as int) ==> {
            &&& r is Ok
            &&& final(dest)@ == old(dest)@ + spec_tag_out(source@, range, timestamp)
        },
        !range.spec_in_bounds(source@.len() as int) ==> {
            &&& r == Err::<(), MixerError>(MixerError { kind: ErrorKind::Io })
            &&& *final(dest) == *old(dest)
        },
{
    match range.read(source, buf) {
        Ok(_) => {},
        Err(e) => {
            return Err(e);
        },
    }

    proof {
        assert(0 <= timestamp & 0xffffff < 0x1000000) by (bit_vector);
    }
    let lo: u32 = (timestamp & 0xffffff) as u32;
    proof {
        assert((lo >> 16) & 0xff < 256 && (lo >> 8) & 0xff < 256 && lo & 0xff < 256)
            by (bit_vector);
        assert(0 <= (timestamp >> 24) & 0xff < 256) by (bit_vector);
    }
    buf[4] = ((lo >> 16) & 0xff) as u8;
    buf[5] = ((lo >> 8) & 0xff) as u8;
    buf[6] = (lo & 0xff) as u8;
    buf[7] = ((timestamp >> 24) & 0xff) as u8;

    append_bytes(dest, buf);
    let trailer: u32 = buf.len() as u32;
    push_u32_be(dest, trailer);
    proof {
        assert(final(dest)@ =~= old(dest)@ + spec_tag_out(source@, range, timestamp));
    }
    Ok(())
}

/// Every re-emitted tag ends with a `previous_tag_size` of exactly its
/// stored length, which the scan records as 11 header bytes plus the data
/// size: the last four bytes of the re-emission are that count, big-endian.
pub proof fn lemma_tag_out_trailer(src: Seq<u8>, range: FileRange, ts: i32)
    requires
        range.spec_in_bounds(src.len() as int),
        range.length >= 8,
    ensures
        spec_tag_out(src, range, ts).len() == range.length + 4,
        spec_tag_out(src, range, ts).subrange(range.length as int, range.length + 4)
            == spec_u32_be(range.length),
{
    assert(spec_tag_out(src, range, ts).subrange(range.length as int, range.length + 4)
        =~= spec_u32_be(range.length));
}

/// The timestamp-ordered interleaving of the scanned audio and video tags,
/// each reduced to its range and the timestamp it is re-emitted under; on a
/// tie the video tag goes first.
pub open spec fn spec_merge(audio: Seq<AudioTag>, video: Seq<VideoNaluTag>) -> Seq<
    (FileRange, i32),
>
    decreases audio.len() + video.len(),
{
    if audio.len() == 0 && video.len() == 0 {
        Seq::empty()
    } else if video.len() == 0 {
        seq![(audio[0].range, audio[0].timestamp)] + spec_merge(audio.drop_first(), video)
    } else if audio.len() == 0 {
        seq![(video[0].range, video[0].decode_timestamp)] + spec_merge(audio, video.drop_first())
    } else if audio[0].timestamp < video[0].decode_timestamp {
        seq![(audio[0].range, audio[0].timestamp)] + spec_merge(audio.drop_first(), video)
    } else {
        seq![(video[0].range, video[0].decode_timestamp)] + spec_merge(audio, video.drop_first())
    }
}

/// The bytes that re-emitting a list of stored tags produces.
pub open spec fn spec_tags_bytes(src: Seq<u8>, tags: Seq<(FileRange, i32)>) -> Seq<u8>
    decreases tags.len(),
{
    if tags.len() == 0 {
        Seq::empty()
    } else {
        spec_tag_out(src, tags[0].0, tags[0].1) + spec_tags_bytes(src, tags.drop_first())
    }
}

/// Every stored range in the map is at least one whole tag header wide.
pub open spec fn spec_seekmap_lengths_ok(m: SeekMap) -> bool {
    &&& m.audio_sequence_header.length >= 8
    &&& m.video_sequence_header.length >= 8
    &&& m.video_end_of_sequence.length >= 8
    &&& forall|i: int| 0 <= i < m.audio_tags@.len() ==> (#[trigger] m.audio_tags@[i]).range.length
        >= 8
    &&& forall|i: int| 0 <= i < m.video_tags@.len() ==> (#[trigger] m.video_tags@[i]).range.length
        >= 8
}

/// Every stored range in the map lies within a source of `len` bytes.
pub open spec fn spec_seekmap_in_bounds(m: SeekMap, len: int) -> bool {
    &&& m.audio_sequence_header.spec_in_bounds(len)
    &&& m.video_sequence_header.spec_in_bounds(len)
    &&& m.video_end_of_sequence.spec_in_bounds(len)
    &&& forall|i: int| 0 <= i < m.audio_tags@.len() ==> (
    #[trigger] m.audio_tags@[i]).range.spec_in_bounds(len)
    &&& forall|i: int| 0 <= i < m.video_tags@.len() ==> (
    #[trigger] m.video_tags@[i]).range.spec_in_bounds(len)
}

/// Everything a successful dump writes: the FLV header, the two sequence
/// headers at timestamp zero, every media tag in timestamp order, then the
/// end-of-sequence tag.
pub open spec fn spec_dump_bytes(src: Seq<u8>, m: SeekMap) -> Seq<u8> {
    spec_flv_header() + spec_tag_out(src, m.video_sequence_header, 0)
        + spec_tag_out(src, m.audio_sequence_header, 0)
        + spec_tags_bytes(src, spec_merge(m.audio_tags@, m.video_tags@))
        + spec_tag_out(src, m.video_end_of_sequence, m.end_of_sequence_timestamp)
}

impl SeekMap {
    /// Dumps all known tags from the in-memory source to `dest`: header,
    /// sequence headers, the media tags in timestamp order, then the
    /// end-of-sequence tag.  Succeeds exactly when every stored range lies
    /// within the source.
    pub fn dump(&self, source: &Vec<u8>, dest: &mut Vec<u8>) -> (r: Result<(), MixerError>)
        requires
            spec_seekmap_lengths_ok(*self),
        ensures
            (r is Ok) <==> spec_seekmap_in_bounds(*self, source@.len() as int),
            r is Ok ==> final(dest)@ == old(dest)@ + spec_dump_bytes(source@, *self),
    {
        let mut buf: Vec<u8> = Vec::new();

        write_flv_header(dest);

        match write_tag_with_timestamp(self.video_sequence_header, 0, source, dest, &mut buf) {
            Ok(_) => {},
            Err(e) => {
                return Err(e);
            },
        }
        match write_tag_with_timestamp(self.audio_sequence_header, 0, source, dest, &mut buf) {
            Ok(_) => {},
            Err(e) => {
                return Err(e);
            },
        }

        let ghost base = old(dest)@ + spec_flv_header()
            + spec_tag_out(source@, self.video_sequence_header, 0)
            + spec_tag_out(source@, self.audio_sequence_header, 0);
        proof {
            assert(dest@ =~= base);
            assert(self.audio_tags@.skip(0) =~= self.audio_tags@);
            assert(self.video_tags@.skip(0) =~= self.video_tags@);
        }

        let mut audio_ix: usize = 0;
        let mut video_ix: usize = 0;
        while audio_ix < self.audio_tags.len() || video_ix < self.video_tags.len()
            invariant
                spec_seekmap_lengths_ok(*self),
                audio_ix <= self.audio_tags@.len(),
                video_ix <= self.video_tags@.len(),
                forall|i: int| 0 <= i < audio_ix ==> (
                #[trigger] self.audio_tags@[i]).range.spec_in_bounds(source@.len() as int),
                forall|i: int| 0 <= i < video_ix ==> (
                #[trigger] self.video_tags@[i]).range.spec_in_bounds(source@.len() as int),
                dest@ + spec_tags_bytes(
                    source@,
                    spec_merge(
                        self.audio_tags@.skip(audio_ix as int),
                        self.video_tags@.skip(video_ix as int),
                    ),
                ) == base + spec_tags_bytes(
                    source@,
                    spec_merge(self.audio_tags@, self.video_tags@),
                ),
            decreases self.audio_tags@.len() + self.video_tags@.len() - audio_ix - video_ix,
        {
            let ghost a_suf = self.audio_tags@.skip(audio_ix as int);
            let ghost v_suf = self.video_tags@.skip(video_ix as int);
            let take_audio: bool = if video_ix >= self.video_tags.len() {
                true
            } else if audio_ix >= self.audio_tags.len() {
                false
            } else {
                self.audio_tags[audio_ix].timestamp < self.video_tags[video_ix].decode_timestamp
            };

            let (next_range, next_timestamp): (FileRange, i32) = if take_audio {
                let t = self.audio_tags[audio_ix];
                proof {
                    assert(a_suf[0] == t);
                    assert(a_suf.drop_first() =~= self.audio_tags@.skip(audio_ix + 1));
                    assert(spec_merge(a_suf, v_suf) == seq![(t.range, t.timestamp)]
                        + spec_merge(self.audio_tags@.skip(audio_ix + 1), v_suf));
                }
                audio_ix = audio_ix + 1;
                (t.range, t.timestamp)
            } else {
                let t = self.video_tags[video_ix];
                proof {
                    assert(v_suf[0] == t);
                    assert(v_suf.drop_first() =~= self.video_tags@.skip(video_ix + 1));
                    assert(spec_merge(a_suf, v_suf) == seq![(t.range, t.decode_timestamp)]
                        + spec_merge(a_suf, self.video_tags@.skip(video_ix + 1)));
                }
                video_ix = video_ix + 1;
                (t.range, t.decode_timestamp)
            };

            let ghost dest_before = dest@;
            match write_tag_with_timestamp(next_range, next_timestamp, source, dest, &mut buf) {
                Ok(_) => {},
                Err(e) => {
                    return Err(e);
                },
            }
            proof {
                let rest = spec_merge(
                    self.audio_tags@.skip(audio_ix as int),
                    self.video_tags@.skip(video_ix as int),
                );
                let head = seq![(next_range, next_timestamp)];
                assert((head + rest)[0] == (next_range, next_timestamp));
                assert((head + rest).drop_first() =~= rest);
                assert(spec_tags_bytes(source@, head + rest) == spec_tag_out(
                    source@,
                    next_range,
                    next_timestamp,
                ) + spec_tags_bytes(source@, rest));
                assert(dest@ + spec_tags_bytes(source@, rest) =~= dest_before + spec_tags_bytes(
                    source@,
                    head + rest,
                ));
            }
        }

        proof {
            assert(self.audio_tags@.skip(self.audio_tags@.len() as int)
                =~= Seq::<AudioTag>::empty());
            assert(self.video_tags@.skip(self.video_tags@.len() as int)
                =~= Seq::<VideoNaluTag>::empty());
            assert(spec_tags_bytes(
                source@,
                spec_merge(Seq::<AudioTag>::empty(), Seq::<VideoNaluTag>::empty()),
            ) =~= Seq::<u8>::empty());
            assert(dest@ =~= base + spec_tags_bytes(
                source@,
                spec_merge(self.audio_tags@, self.video_tags@),
            ));
        }

        match write_tag_with_timestamp(
            self.video_end_of_sequence,
            self.end_of_sequence_timestamp,
            source,
            dest,
            &mut buf,
        ) {
            Ok(_) => {},
            Err(e) => {
                return Err(e);
            },
        }
        proof {
            assert(final(dest)@ =~= old(dest)@ + spec_dump_bytes(source@, *self));
        }
        Ok(())
    }
}

/// What a scan has established so far.
pub struct ScanState {
    pub audio_sequence_header: Option<FileRange>,
    pub video_sequence_header: Option<FileRange>,
    pub video_end_of_sequence: Option<FileRange>,
    pub end_of_sequence_timestamp: i32,
    pub audio_tags: Seq<AudioTag>,
    pub video_tags: Seq<VideoNaluTag>,
}

/// The state a scan starts from: nothing found yet.
pub open spec fn spec_scan_init() -> ScanState {
    ScanState {
        audio_sequence_header: None,
        video_sequence_header: None,
        video_end_of_sequence: None,
        end_of_sequence_timestamp: 0,
        audio_tags: Seq::empty(),
        video_tags: Seq::empty(),
    }
}

/// What scanning the tag list of an FLV stream from `offset` yields.  Each
/// step checks the 4-byte `previous_tag_size` against the previous tag,
/// then either ends cleanly (exactly those 4 bytes remain, and all three
/// landmark tags were found) or reads one 11-byte tag header and files the
/// tag by type; audio and video sub-headers are parsed where the scan
/// needs them, and script-data tags are skipped.
pub open spec fn spec_scan(src: Seq<u8>, offset: int, expect_prev: u32, st: ScanState) -> Result<
    ScanState,
    MixerError,
>
    decreases src.len() - offset,
{
    if src.len() - offset < 4 {
        Err(MixerError { kind: ErrorKind::InvalidData })
    } else if spec_u32_val(src[offset], src[offset + 1], src[offset + 2], src[offset + 3])
        != expect_prev {
        Err(MixerError { kind: ErrorKind::InvalidData })
    } else if src.len() - offset == 4 {
        if st.audio_sequence_header is Some && st.video_sequence_header is Some
            && st.video_end_of_sequence is Some {
            Ok(st)
        } else {
            Err(MixerError { kind: ErrorKind::InvalidData })
        }
    } else if src.len() - offset < 15 {
        Err(MixerError { kind: ErrorKind::InvalidData })
    } else {
        match spec_parse_tag_header(src.subrange(offset + 4, offset + 15)) {
            Err(e) => Err(e),
            Ok(h) => {
                let range = FileRange {
                    offset: (offset + 4) as u64,
                    length: (h.datasize + 11) as u32,
                };
                let next = offset + 15 + h.datasize;
                if h.tagtype == 8 {
                    match spec_parse_audio_header(src.skip(offset + 15)) {
                        Err(e) => Err(e),
                        Ok(ah) => {
                            let st2 = match ah {
                                AacAudioPacketType::SequenceHeader => ScanState {
                                    audio_sequence_header: Some(range),
                                    ..st
                                },
                                AacAudioPacketType::Raw => ScanState {
                                    audio_tags: st.audio_tags.push(
                                        AudioTag { timestamp: h.decode_ts, range },
                                    ),
                                    ..st
                                },
                            };
                            if next > src.len() {
                                Err(MixerError { kind: ErrorKind::InvalidData })
                            } else {
                                spec_scan(src, next, (h.datasize + 11) as u32, st2)
                            }
                        },
                    }
                } else if h.tagtype == 9 {
                    match spec_parse_video_header(src.skip(offset + 15)) {
                        Err(e) => Err(e),
                        Ok(vh) => {
                            let st2 = match vh {
                                AvcPacketType::SequenceHeader => ScanState {
                                    video_sequence_header: Some(range),
                                    ..st
                                },
                                AvcPacketType::Nalu { composition_offset_millis, seekable } =>
                                    ScanState {
                                    video_tags: st.video_tags.push(
                                        VideoNaluTag {
                                            decode_timestamp: h.decode_ts,
                                            composition_time_offset: composition_offset_millis,
                                            seekable,
                                            range,
                                        },
                                    ),
                                    ..st
                                },
                                AvcPacketType::SequenceEnd => ScanState {
                                    video_end_of_sequence: Some(range),
                                    end_of_sequence_timestamp: h.decode_ts,
                                    ..st
                                },
                            };
                            if next > src.len() {
                                Err(MixerError { kind: ErrorKind::InvalidData })
                            } else {
                                spec_scan(src, next, (h.datasize + 11) as u32, st2)
                            }
                        },
                    }
                } else if h.tagtype == 18 {
                    // A SCRIPTDATA tag: skipped.
                    if next > src.len() {
                        Err(MixerError { kind: ErrorKind::InvalidData })
                    } else {
                        spec_scan(src, next, (h.datasize + 11) as u32, st)
                    }
                } else {
                    Err(MixerError { kind: ErrorKind::InvalidData })
                }
            },
        }
    }
}

/// Scans a whole in-memory FLV stream (its 9 signature bytes included)
/// into a seek map: the two sequence headers, the end-of-sequence tag, and
/// every raw audio tag and video NALU with its stored place and timestamp.
pub fn scan_tags(source: &Vec<u8>) -> (r: Result<SeekMap, MixerError>)
    ensures
        spec_scan(source@, 9, 0, spec_scan_init()) matches Ok(st) ==> (r matches Ok(m) && {
            &&& Some(m.audio_sequence_header) == st.audio_sequence_header
            &&& Some(m.video_sequence_header) == st.video_sequence_header
            &&& Some(m.video_end_of_sequence) == st.video_end_of_sequence
            &&& m.end_of_sequence_timestamp == st.end_of_sequence_timestamp
            &&& m.audio_tags@ == st.audio_tags
            &&& m.video_tags@ == st.video_tags
        }),
        spec_scan(source@, 9, 0, spec_scan_init()) matches Err(e) ==> r == Err::<
            SeekMap,
            MixerError,
        >(e),
{
    let mut offset: usize = 9;
    let mut expect_prev: u32 = 0;
    let mut audio_tags: Vec<AudioTag> = Vec::new();
    let mut video_tags: Vec<VideoNaluTag> = Vec::new();
    let mut audio_sequence_header: Option<FileRange> = None;
    let mut video_sequence_header: Option<FileRange> = None;
    let mut video_end_of_sequence: Option<FileRange> = None;
    let mut end_of_sequence_timestamp: i32 = 0;

    if source.len() < 13 {
        return Err(MixerError { kind: ErrorKind::InvalidData });
    }

    loop
        invariant
            offset <= source@.len(),
            source@.len() >= 13,
            spec_scan(source@, 9, 0, spec_scan_init()) == spec_scan(
                source@,
                offset as int,
                expect_prev,
                (ScanState {
                    audio_sequence_header,
                    video_sequence_header,
                    video_end_of_sequence,
                    end_of_sequence_timestamp,
                    audio_tags: audio_tags@,
                    video_tags: video_tags@,
                }),
            ),
        decreases source@.len() - offset,
    {
        let ghost st0 = ScanState {
            audio_sequence_header,
            video_sequence_header,
            video_end_of_sequence,
            end_of_sequence_timestamp,
            audio_tags: audio_tags@,
            video_tags: video_tags@,
        };
        let ghost off0 = offset as int;
        let ghost prev0 = expect_prev;

        let avail: usize = source.len() - offset;
        if avail < 4 {
            return Err(MixerError { kind: ErrorKind::InvalidData });
        }
        let check_previous_size = read_u32_at(source, offset);
        if check_previous_size != expect_prev {
            return Err(MixerError { kind: ErrorKind::InvalidData });
        }
        if avail == 4 {
            match (audio_sequence_header, video_sequence_header, video_end_of_sequence) {
                (Some(ash), Some(vsh), Some(veos)) => {
                    return Ok(SeekMap {
                        audio_sequence_header: ash,
                        video_sequence_header: vsh,
                        video_end_of_sequence: veos,
                        end_of_sequence_timestamp,
                        audio_tags,
                        video_tags,
                    });
                },
                _ => {
                    return Err(MixerError { kind: ErrorKind::InvalidData });
                },
            }
        }
        if avail < 15 {
            return Err(MixerError { kind: ErrorKind::InvalidData });
        }

        let tag_header = match read_tag_header(source, offset + 4) {
            Ok(h) => h,
            Err(e) => {
                return Err(e);
            },
        };
        let range = FileRange { offset: (offset as u64) + 4, length: tag_header.datasize + 11 };

        if tag_header.tagtype == 8 {
            match read_audio_header_at(source, offset + 15) {
                Err(e) => {
                    return Err(e);
                },
                Ok(AacAudioPacketType::SequenceHeader) => {
                    audio_sequence_header = Some(range);
                },
                Ok(AacAudioPacketType::Raw) => {
                    audio_tags.push(AudioTag { timestamp: tag_header.decode_ts, range });
                },
            }
        } else if tag_header.tagtype == 9 {
            match read_video_header_at(source, offset + 15) {
                Err(e) => {
                    return Err(e);
                },
                Ok(AvcPacketType::SequenceHeader) => {
                    video_sequence_header = Some(range);
                },
                Ok(AvcPacketType::Nalu { composition_offset_millis, seekable }) => {
                    video_tags.push(VideoNaluTag {
                        decode_timestamp: tag_header.decode_ts,
                        composition_time_offset: composition_offset_millis,
                        seekable,
                        range,
                    });
                },
                Ok(AvcPacketType::SequenceEnd) => {
                    video_end_of_sequence = Some(range);
                    end_of_sequence_timestamp = tag_header.decode_ts;
                },
            }
        } else if tag_header.tagtype == 18 {
            // A SCRIPTDATA tag: skipped.
        } else {
            return Err(MixerError { kind: ErrorKind::InvalidData });
        }

        if (tag_header.datasize as u64) > ((source.len() as u64) - (offset as u64)) - 15 {
            return Err(MixerError { kind: ErrorKind::InvalidData });
        }
        let next64: u64 = ((offset as u64) + 15) + (tag_header.datasize as u64);
        offset = next64 as usize;
        expect_prev = tag_header.datasize + 11;

        proof {
            assert(spec_scan(source@, off0, prev0, st0) == spec_scan(
                source@,
                offset as int,
                expect_prev,
                (ScanState {
                    audio_sequence_header,
                    video_sequence_header,
                    video_end_of_sequence,
                    end_of_sequence_timestamp,
                    audio_tags: audio_tags@,
                    video_tags: video_tags@,
                }),
            ));
        }
    }
}

/// Audio slices shorter than this many milliseconds are grown rather than
/// cut; shuffling moves whole slices.
pub const MIN_SLICE_INTERVAL: i32 = 10 * 1000;

#[verifier::external_type_specification]
#[verifier::external_body]
pub struct ExThreadRng(rand::rngs::ThreadRng);

/// Relies on rand::seq::SliceRandom::shuffle: an in-place Fisher-Yates
/// permutation of the index pairs; elements are rearranged, none added or
/// lost, and which arrangement comes out depends on the generator alone.
#[verifier::external_body]
fn shuffle_pairs(v: &mut Vec<(usize, usize)>, rng: &mut rand::rngs::ThreadRng)
    ensures
        final(v)@.to_multiset() == old(v)@.to_multiset(),
{
    v.as_mut_slice().shuffle(rng);
}

/// The half-open index intervals that slice the audio tag list: a new slice
/// starts whenever a tag's timestamp runs more than `MIN_SLICE_INTERVAL`
/// past the slice's first timestamp, and the last slice runs to the end.
pub open spec fn spec_intervals(
    ts: Seq<i32>,
    ix: int,
    begin: usize,
    begin_ts: i32,
    acc: Seq<(usize, usize)>,
) -> Seq<(usize, usize)>
    decreases ts.len() - ix,
{
    if ix < 0 || ix >= ts.len() {
        acc.push((begin, ts.len() as usize))
    } else if ts[ix] - begin_ts > MIN_SLICE_INTERVAL {
        spec_intervals(ts, ix + 1, ix as usize, ts[ix], acc.push((begin, ix as usize)))
    } else {
        spec_intervals(ts, ix + 1, begin, begin_ts, acc)
    }
}

/// The slicing of a whole audio timestamp list.
pub open spec fn spec_audio_intervals(ts: Seq<i32>) -> Seq<(usize, usize)> {
    spec_intervals(ts, 0, 0, 0, Seq::empty())
}

/// The tags an index interval selects; nothing if the interval is not a
/// valid slice of the list.
pub open spec fn spec_slice(tags: Seq<AudioTag>, iv: (usize, usize)) -> Seq<AudioTag> {
    if iv.0 <= iv.1 <= tags.len() {
        tags.subrange(iv.0 as int, iv.1 as int)
    } else {
        Seq::empty()
    }
}

/// The concatenation of the slices a list of intervals selects.
pub open spec fn spec_concat_slices(tags: Seq<AudioTag>, ivs: Seq<(usize, usize)>) -> Seq<AudioTag>
    decreases ivs.len(),
{
    if ivs.len() == 0 {
        Seq::empty()
    } else {
        spec_slice(tags, ivs[0]) + spec_concat_slices(tags, ivs.drop_first())
    }
}

/// Concatenating one more interval appends its slice.
proof fn lemma_concat_push(tags: Seq<AudioTag>, ivs: Seq<(usize, usize)>, x: (usize, usize))
    ensures
        spec_concat_slices(tags, ivs.push(x)) == spec_concat_slices(tags, ivs) + spec_slice(
            tags,
            x,
        ),
    decreases ivs.len(),
{
    if ivs.len() == 0 {
        assert(ivs.push(x)[0] == x);
        assert(ivs.push(x).drop_first() =~= Seq::<(usize, usize)>::empty());
        assert(spec_concat_slices(tags, Seq::<(usize, usize)>::empty())
            == Seq::<AudioTag>::empty());
        assert(spec_concat_slices(tags, ivs.push(x)) == spec_slice(tags, x) + spec_concat_slices(
            tags,
            ivs.push(x).drop_first(),
        ));
        assert(spec_concat_slices(tags, ivs.push(x)) =~= spec_concat_slices(tags, ivs)
            + spec_slice(tags, x));
    } else {
        lemma_concat_push(tags, ivs.drop_first(), x);
        assert(ivs.push(x)[0] == ivs[0]);
        assert(ivs.push(x).drop_first() =~= ivs.drop_first().push(x));
        assert(spec_concat_slices(tags, ivs.push(x)) == spec_slice(tags, ivs[0])
            + spec_concat_slices(tags, ivs.drop_first().push(x)));
        assert(spec_concat_slices(tags, ivs) == spec_slice(tags, ivs[0]) + spec_concat_slices(
            tags,
            ivs.drop_first(),
        ));
        assert(spec_concat_slices(tags, ivs.push(x)) =~= spec_concat_slices(tags, ivs)
            + spec_slice(tags, x));
    }
}

/// `out` with its timestamps overwritten positionally from `orig`, as far
/// as both reach.
pub open spec fn spec_restore_ts(out: Seq<AudioTag>, orig: Seq<AudioTag>) -> Seq<AudioTag> {
    Seq::new(
        out.len(),
        |i: int|
            AudioTag {
                timestamp: if i < orig.len() {
                    orig[i].timestamp
                } else {
                    out[i].timestamp
                },
                range: out[i].range,
            },
    )
}

/// Shuffles the scanned audio tags in whole slices of at least
/// `MIN_SLICE_INTERVAL` milliseconds, then restores the original timestamp
/// sequence positionally: the stored ranges move, the output timeline does
/// not.  The result is the concatenation of some rearrangement of the
/// slices; which rearrangement comes out depends on the generator.
pub fn shuffle_audio(tags: &SeekMap, rng: &mut rand::rngs::ThreadRng) -> (r: Vec<AudioTag>)
    ensures
        exists|ivs: Seq<(usize, usize)>|
            {
                &&& #[trigger] ivs.to_multiset() == spec_audio_intervals(
                    tags.audio_tags@.map_values(|t: AudioTag| t.timestamp),
                ).to_multiset()
                &&& r@ == spec_restore_ts(
                    spec_concat_slices(tags.audio_tags@, ivs),
                    tags.audio_tags@,
                )
            },
{
    let ghost ts_seq = tags.audio_tags@.map_values(|t: AudioTag| t.timestamp);
    let ts_len: usize = tags.audio_tags.len();

    let mut intervals: Vec<(usize, usize)> = Vec::new();
    let mut begin: usize = 0;
    let mut begin_ts: i32 = 0;
    let mut ix: usize = 0;
    proof {
        assert(intervals@ =~= Seq::<(usize, usize)>::empty());
    }
    while ix < ts_len
        invariant
            ts_len == tags.audio_tags@.len(),
            ts_seq == tags.audio_tags@.map_values(|t: AudioTag| t.timestamp),
            ix <= ts_len,
            begin <= ix,
            spec_audio_intervals(ts_seq) == spec_intervals(
                ts_seq,
                ix as int,
                begin,
                begin_ts,
                intervals@,
            ),
            forall|k: int| 0 <= k < intervals@.len() ==> (#[trigger] intervals@[k]).0
                <= intervals@[k].1 <= ts_len,
        decreases ts_len - ix,
    {
        let ghost ivs0 = intervals@;
        let t: i32 = tags.audio_tags[ix].timestamp;
        proof {
            assert(ts_seq[ix as int] == t);
        }
        if (t as i64) - (begin_ts as i64) > (MIN_SLICE_INTERVAL as i64) {
            intervals.push((begin, ix));
            begin = ix;
            begin_ts = t;
        }
        ix = ix + 1;
    }
    intervals.push((begin, ts_len));
    proof {
        assert(spec_audio_intervals(ts_seq) == intervals@);
    }

    let ghost pre_shuffle = intervals@;
    shuffle_pairs(&mut intervals, rng);
    proof {
        broadcast use vstd::seq_lib::group_to_multiset_ensures;

        assert forall|k: int| 0 <= k < intervals@.len() implies (#[trigger] intervals@[k]).0
            <= intervals@[k].1 <= tags.audio_tags@.len() by {
            assert(intervals@.contains(intervals@[k]));
            assert(intervals@.to_multiset().count(intervals@[k]) > 0);
            assert(pre_shuffle.contains(intervals@[k]));
            let j = choose|j: int| 0 <= j < pre_shuffle.len() && pre_shuffle[j] == intervals@[k];
        }
    }

    let mut ret: Vec<AudioTag> = Vec::new();
    proof {
        assert(intervals@.take(0) =~= Seq::<(usize, usize)>::empty());
        assert(ret@ =~= spec_concat_slices(tags.audio_tags@, intervals@.take(0)));
    }
    let mut k: usize = 0;
    while k < intervals.len()
        invariant
            k <= intervals@.len(),
            forall|kk: int| 0 <= kk < intervals@.len() ==> (#[trigger] intervals@[kk]).0
                <= intervals@[kk].1 <= tags.audio_tags@.len(),
            ret@ == spec_concat_slices(tags.audio_tags@, intervals@.take(k as int)),
        decreases intervals@.len() - k,
    {
        let (s, e): (usize, usize) = intervals[k];
        let ghost before = ret@;
        let mut j: usize = s;
        while j < e
            invariant
                s <= j <= e,
                e <= tags.audio_tags@.len(),
                ret@ == before + tags.audio_tags@.subrange(s as int, j as int),
            decreases e - j,
        {
            ret.push(tags.audio_tags[j]);
            proof {
                assert(tags.audio_tags@.subrange(s as int, j + 1)
                    =~= tags.audio_tags@.subrange(s as int, j as int).push(
                    tags.audio_tags@[j as int],
                ));
            }
            j = j + 1;
        }
        proof {
            lemma_concat_push(tags.audio_tags@, intervals@.take(k as int), intervals@[k as int]);
            assert(intervals@.take(k + 1) =~= intervals@.take(k as int).push(
                intervals@[k as int],
            ));
            assert(ret@ =~= spec_concat_slices(tags.audio_tags@, intervals@.take(k + 1)));
        }
        k = k + 1;
    }
    proof {
        assert(intervals@.take(intervals@.len() as int) =~= intervals@);
    }

    let ghost concat_seq = ret@;
    let n: usize = if ret.len() < ts_len {
        ret.len()
    } else {
        ts_len
    };
    let mut i: usize = 0;
    while i < n
        invariant
            ts_len == tags.audio_tags@.len(),
            n <= ret@.len(),
            n <= ts_len,
            i <= n,
            ret@.len() == concat_seq.len(),
            n == if concat_seq.len() < ts_len {
                concat_seq.len() as int
            } else {
                ts_len as int
            },
            forall|jj: int| 0 <= jj < i ==> ret@[jj] == (AudioTag {
                timestamp: tags.audio_tags@[jj].timestamp,
                range: concat_seq[jj].range,
            }),
            forall|jj: int| i <= jj < ret@.len() ==> ret@[jj] == concat_seq[jj],
        decreases n - i,
    {
        let range = ret[i].range;
        let stamp = tags.audio_tags[i].timestamp;
        ret[i] = AudioTag { timestamp: stamp, range };
        i = i + 1;
    }
    proof {
        assert(ret@ =~= spec_restore_ts(concat_seq, tags.audio_tags@));
        assert(exists|ivs: Seq<(usize, usize)>|
            {
                &&& #[trigger] ivs.to_multiset() == spec_audio_intervals(
                    tags.audio_tags@.map_values(|t: AudioTag| t.timestamp),
                ).to_multiset()
                &&& ret@ == spec_restore_ts(
                    spec_concat_slices(tags.audio_tags@, ivs),
                    tags.audio_tags@,
                )
            }) by {
            assert({
                &&& intervals@.to_multiset() == spec_audio_intervals(
                    tags.audio_tags@.map_values(|t: AudioTag| t.timestamp),
                ).to_multiset()
                &&& ret@ == spec_restore_ts(
                    spec_concat_slices(tags.audio_tags@, intervals@),
                    tags.audio_tags@,
                )
            });
        }
    }
    ret
}

} // verus!
