//! The FIFO mixer: multi-source arbitration and timeline rewriting.  It
//! accepts per-source audio and video payloads, decides which source holds
//! the floor on each track, rewrites timestamps onto one monotonic output
//! timeline, and emits complete FLV tags.

use vstd::prelude::*;
use std::collections::HashMap;

verus! {

use crate::errors::{ErrorKind, MixerError};
use crate::flv::{
    AacAudioPacketType,
    AvcPacketType,
    append_bytes,
    push_u32_be,
    read_audio_header,
    read_video_header,
    spec_media_tag,
    spec_parse_audio_header,
    spec_parse_video_header,
    write_audio_tag_header,
    write_video_tag_header,
};

/// The opaque identity of one publishing source.
pub type MixerSource = usize;

/// The last inbound timestamp seen from one source, per track.
#[derive(Clone, Copy, Debug, PartialEq, Eq, Structural)]
pub struct SourceTs {
    pub audio_ts: i32,
    pub video_ts: i32,
}

/// A mixer: feeds per-source payloads through to a byte sink.
/// Uniqueness of sources is up to the client.
pub trait Mixer {
    fn source_video(
        &mut self,
        out: &mut Vec<u8>,
        source: MixerSource,
        data: &Vec<u8>,
        timestamp: i32,
    ) -> Result<(), MixerError>
        requires
            data@.len() < 0x1000000,
    ;

    fn source_audio(
        &mut self,
        out: &mut Vec<u8>,
        source: MixerSource,
        data: &Vec<u8>,
        timestamp: i32,
    ) -> Result<(), MixerError>
        requires
            data@.len() < 0x1000000,
    ;
}

/// The mixer state: per-source timestamps, the current floor holder of each
/// track, and the output timeline position of each track.
pub struct FifoMixer {
    pub source_timestamps: HashMap<MixerSource, SourceTs>,
    pub current_audio_source: Option<MixerSource>,
    pub current_video_source: Option<MixerSource>,
    pub output_audio_ts: i32,
    pub output_video_ts: i32,
    pub next_source_id: MixerSource,
}

/// The per-source timestamp record the mixer holds for `source`: a zeroed
/// record while the source has not been seen.
pub open spec fn spec_source_ts(m: FifoMixer, source: MixerSource) -> SourceTs {
    if m.source_timestamps@.contains_key(source) {
        m.source_timestamps@[source]
    } else {
        SourceTs { audio_ts: 0, video_ts: 0 }
    }
}

/// The audio switch table: a sequence header is admitted only while no
/// source holds the audio floor; a raw frame is always admitted, so audio
/// follows whichever source spoke most recently.
pub open spec fn spec_audio_admit(current: Option<MixerSource>, h: AacAudioPacketType) -> bool {
    match h {
        AacAudioPacketType::SequenceHeader => current is None,
        AacAudioPacketType::Raw => true,
    }
}

/// The video switch table: a sequence header is admitted only while no
/// source holds the video floor; a seekable NALU is always admitted (a
/// source switch is allowed at an IDR); a non-seekable NALU is admitted
/// only from the floor holder; a sequence end is dropped.
pub open spec fn spec_video_admit(
    current: Option<MixerSource>,
    source: MixerSource,
    h: AvcPacketType,
) -> bool {
    match h {
        AvcPacketType::SequenceHeader => current is None,
        AvcPacketType::Nalu { seekable, .. } => seekable || current == Some(source),
        AvcPacketType::SequenceEnd => false,
    }
}

/// Everything one `source_audio` call does.  The source's audio timestamp
/// is recorded first, whatever follows; a malformed payload surfaces its
/// parse error; a denied payload is dropped silently; an admitted payload
/// moves the audio floor to this source, advances the output audio
/// timeline by this source's own timestamp delta, and appends exactly one
/// FLV audio tag.  An admitted delta that would push the output timeline
/// outside the signed 32-bit range is refused as an overflow.
pub open spec fn spec_source_audio(
    pre: FifoMixer,
    post: FifoMixer,
    out_pre: Seq<u8>,
    out_post: Seq<u8>,
    source: MixerSource,
    data: Seq<u8>,
    timestamp: i32,
    r: Result<(), MixerError>,
) -> bool {
    let rec = spec_source_ts(pre, source);
    let dt = timestamp - rec.audio_ts;
    &&& post.source_timestamps@ == pre.source_timestamps@.insert(
        source,
        SourceTs { audio_ts: timestamp, video_ts: rec.video_ts },
    )
    &&& post.next_source_id == pre.next_source_id
    &&& post.current_video_source == pre.current_video_source
    &&& post.output_video_ts == pre.output_video_ts
    &&& match spec_parse_audio_header(data) {
        Err(e) => {
            &&& r == Err::<(), MixerError>(e)
            &&& out_post == out_pre
            &&& post.current_audio_source == pre.current_audio_source
            &&& post.output_audio_ts == pre.output_audio_ts
        },
        Ok(h) => {
            if !spec_audio_admit(pre.current_audio_source, h) {
                &&& r == Ok::<(), MixerError>(())
                &&& out_post == out_pre
                &&& post.current_audio_source == pre.current_audio_source
                &&& post.output_audio_ts == pre.output_audio_ts
            } else if pre.output_audio_ts + dt < i32::MIN || pre.output_audio_ts + dt > i32::MAX {
                &&& r == Err::<(), MixerError>(MixerError { kind: ErrorKind::Overflow })
                &&& out_post == out_pre
                &&& post.current_audio_source == pre.current_audio_source
                &&& post.output_audio_ts == pre.output_audio_ts
            } else {
                &&& r == Ok::<(), MixerError>(())
                &&& post.output_audio_ts == pre.output_audio_ts + dt
                &&& post.current_audio_source == Some(source)
                &&& out_post == out_pre + spec_media_tag(8, data, post.output_audio_ts)
            }
        },
    }
}

/// Everything one `source_video` call does; the video twin of
/// [`spec_source_audio`], deciding by the video switch table.
pub open spec fn spec_source_video(
    pre: FifoMixer,
    post: FifoMixer,
    out_pre: Seq<u8>,
    out_post: Seq<u8>,
    source: MixerSource,
    data: Seq<u8>,
    timestamp: i32,
    r: Result<(), MixerError>,
) -> bool {
    let rec = spec_source_ts(pre, source);
    let dt = timestamp - rec.video_ts;
    &&& post.source_timestamps@ == pre.source_timestamps@.insert(
        source,
        SourceTs { audio_ts: rec.audio_ts, video_ts: timestamp },
    )
    &&& post.next_source_id == pre.next_source_id
    &&& post.current_audio_source == pre.current_audio_source
    &&& post.output_audio_ts == pre.output_audio_ts
    &&& match spec_parse_video_header(data) {
        Err(e) => {
            &&& r == Err::<(), MixerError>(e)
            &&& out_post == out_pre
            &&& post.current_video_source == pre.current_video_source
            &&& post.output_video_ts == pre.output_video_ts
        },
        Ok(h) => {
            if !spec_video_admit(pre.current_video_source, source, h) {
                &&& r == Ok::<(), MixerError>(())
                &&& out_post == out_pre
                &&& post.current_video_source == pre.current_video_source
                &&& post.output_video_ts == pre.output_video_ts
            } else if pre.output_video_ts + dt < i32::MIN || pre.output_video_ts + dt > i32::MAX {
                &&& r == Err::<(), MixerError>(MixerError { kind: ErrorKind::Overflow })
                &&& out_post == out_pre
                &&& post.current_video_source == pre.current_video_source
                &&& post.output_video_ts == pre.output_video_ts
            } else {
                &&& r == Ok::<(), MixerError>(())
                &&& post.output_video_ts == pre.output_video_ts + dt
                &&& post.current_video_source == Some(source)
                &&& out_post == out_pre + spec_media_tag(9, data, post.output_video_ts)
            }
        },
    }
}

/// Everything one `new_source` call does: it hands out the next identifier,
/// bumps the allocator, zeroes the new source's timestamps and touches
/// nothing else.
pub open spec fn spec_new_source(pre: FifoMixer, post: FifoMixer, r: MixerSource) -> bool {
    &&& r == pre.next_source_id
    &&& post.next_source_id == pre.next_source_id + 1
    &&& post.source_timestamps@ == pre.source_timestamps@.insert(
        r,
        SourceTs { audio_ts: 0, video_ts: 0 },
    )
    &&& post.current_audio_source == pre.current_audio_source
    &&& post.current_video_source == pre.current_video_source
    &&& post.output_audio_ts == pre.output_audio_ts
    &&& post.output_video_ts == pre.output_video_ts
}

impl Default for FifoMixer {
    /// A fresh mixer: no sources, no floor holders, both output timelines
    /// at zero.
    fn default() -> (r: Self)
        ensures
            r.source_timestamps@ == Map::<MixerSource, SourceTs>::empty(),
            r.current_audio_source is None,
            r.current_video_source is None,
            r.output_audio_ts == 0,
            r.output_video_ts == 0,
            r.next_source_id == 0,
    {
        FifoMixer {
            source_timestamps: HashMap::new(),
            current_audio_source: None,
            current_video_source: None,
            output_audio_ts: 0,
            output_video_ts: 0,
            next_source_id: 0,
        }
    }
}

impl FifoMixer {
    /// Allocates a fresh source identifier and zeroes its per-track
    /// timestamps.
    pub fn new_source(&mut self) -> (r: MixerSource)
        requires
            old(self).next_source_id < usize::MAX,
        ensures
            spec_new_source(*old(self), *final(self), r),
    {
        let r = self.next_source_id;
        self.next_source_id = self.next_source_id + 1;
        self.source_timestamps.insert(r, SourceTs { audio_ts: 0, video_ts: 0 });
        r
    }

    /// Feeds one audio payload from `source` with that source's own
    /// timestamp; appends at most one audio tag to `out`.
    pub fn source_audio(
        &mut self,
        out: &mut Vec<u8>,
        source: MixerSource,
        data: &Vec<u8>,
        timestamp: i32,
    ) -> (r: Result<(), MixerError>)
        requires
            data@.len() < 0x1000000,
        ensures
            spec_source_audio(
                *old(self),
                *final(self),
                old(out)@,
                final(out)@,
                source,
                data@,
                timestamp,
                r,
            ),
    {
        let rec = match self.source_timestamps.get(&source) {
            Some(ts) => *ts,
            None => SourceTs { audio_ts: 0, video_ts: 0 },
        };
        let old_track_ts = rec.audio_ts;
        self.source_timestamps.insert(
            source,
            SourceTs { audio_ts: timestamp, video_ts: rec.video_ts },
        );

        let header = match read_audio_header(data) {
            Ok(h) => h,
            Err(e) => {
                return Err(e);
            },
        };

        let pass = match header {
            AacAudioPacketType::SequenceHeader => self.current_audio_source.is_none(),
            AacAudioPacketType::Raw => true,
        };
        if !pass {
            return Ok(());
        }

        let dt: i64 = (timestamp as i64) - (old_track_ts as i64);
        let advanced: i64 = (self.output_audio_ts as i64) + dt;
        if advanced < (i32::MIN as i64) || advanced > (i32::MAX as i64) {
            return Err(MixerError { kind: ErrorKind::Overflow });
        }
        let new_out: i32 = advanced as i32;
        self.output_audio_ts = new_out;
        self.current_audio_source = Some(source);

        let data_size: u32 = data.len() as u32;
        write_audio_tag_header(out, data_size, new_out);
        append_bytes(out, data);
        push_u32_be(out, data_size + 11);
        proof {
            assert(final(out)@ =~= old(out)@ + spec_media_tag(8, data@, new_out));
        }
        Ok(())
    }

    /// Feeds one video payload from `source` with that source's own
    /// timestamp; appends at most one video tag to `out`.
    pub fn source_video(
        &mut self,
        out: &mut Vec<u8>,
        source: MixerSource,
        data: &Vec<u8>,
        timestamp: i32,
    ) -> (r: Result<(), MixerError>)
        requires
            data@.len() < 0x1000000,
        ensures
            spec_source_video(
                *old(self),
                *final(self),
                old(out)@,
                final(out)@,
                source,
                data@,
                timestamp,
                r,
            ),
    {
        let rec = match self.source_timestamps.get(&source) {
            Some(ts) => *ts,
            None => SourceTs { audio_ts: 0, video_ts: 0 },
        };
        let old_track_ts = rec.video_ts;
        self.source_timestamps.insert(
            source,
            SourceTs { audio_ts: rec.audio_ts, video_ts: timestamp },
        );

        let header = match read_video_header(data) {
            Ok(h) => h,
            Err(e) => {
                return Err(e);
            },
        };

        let pass = match header {
            AvcPacketType::SequenceHeader => self.current_video_source.is_none(),
            AvcPacketType::Nalu { seekable, .. } => {
                seekable || match self.current_video_source {
                    Some(cur) => cur == source,
                    None => false,
                }
            },
            AvcPacketType::SequenceEnd => false,
        };
        if !pass {
            return Ok(());
        }

        let dt: i64 = (timestamp as i64) - (old_track_ts as i64);
        let advanced: i64 = (self.output_video_ts as i64) + dt;
        if advanced < (i32::MIN as i64) || advanced > (i32::MAX as i64) {
            return Err(MixerError { kind: ErrorKind::Overflow });
        }
        let new_out: i32 = advanced as i32;
        self.output_video_ts = new_out;
        self.current_video_source = Some(source);

        let data_size: u32 = data.len() as u32;
        write_video_tag_header(out, data_size, new_out);
        append_bytes(out, data);
        push_u32_be(out, data_size + 11);
        proof {
            assert(final(out)@ =~= old(out)@ + spec_media_tag(9, data@, new_out));
        }
        Ok(())
    }
}

impl Mixer for FifoMixer {
    fn source_video(
        &mut self,
        out: &mut Vec<u8>,
        source: MixerSource,
        data: &Vec<u8>,
        timestamp: i32,
    ) -> Result<(), MixerError> {
        FifoMixer::source_video(self, out, source, data, timestamp)
    }

    fn source_audio(
        &mut self,
        out: &mut Vec<u8>,
        source: MixerSource,
        data: &Vec<u8>,
        timestamp: i32,
    ) -> Result<(), MixerError> {
        FifoMixer::source_audio(self, out, source, data, timestamp)
    }
}

/// Fresh source identifiers never repeat: two allocations, with any history
/// between them that does not lower the allocator (and no mixer operation
/// lowers it), return distinct values.
pub proof fn lemma_new_source_distinct(
    pre1: FifoMixer,
    post1: FifoMixer,
    r1: MixerSource,
    pre2: FifoMixer,
    post2: FifoMixer,
    r2: MixerSource,
)
    requires
        spec_new_source(pre1, post1, r1),
        post1.next_source_id <= pre2.next_source_id,
        spec_new_source(pre2, post2, r2),
    ensures
        r1 != r2,
{
}

/// The output audio timeline never goes backwards: as long as a source's
/// inbound audio timestamps do not decrease, any `source_audio` call leaves
/// `output_audio_ts` at or above where it was.
pub proof fn lemma_output_audio_ts_nondecreasing(
    pre: FifoMixer,
    post: FifoMixer,
    out_pre: Seq<u8>,
    out_post: Seq<u8>,
    source: MixerSource,
    data: Seq<u8>,
    timestamp: i32,
    r: Result<(), MixerError>,
)
    requires
        spec_source_audio(pre, post, out_pre, out_post, source, data, timestamp, r),
        timestamp >= spec_source_ts(pre, source).audio_ts,
    ensures
        post.output_audio_ts >= pre.output_audio_ts,
        post.output_video_ts == pre.output_video_ts,
{
}

/// The output video timeline never goes backwards: as long as a source's
/// inbound video timestamps do not decrease, any `source_video` call leaves
/// `output_video_ts` at or above where it was.
pub proof fn lemma_output_video_ts_nondecreasing(
    pre: FifoMixer,
    post: FifoMixer,
    out_pre: Seq<u8>,
    out_post: Seq<u8>,
    source: MixerSource,
    data: Seq<u8>,
    timestamp: i32,
    r: Result<(), MixerError>,
)
    requires
        spec_source_video(pre, post, out_pre, out_post, source, data, timestamp, r),
        timestamp >= spec_source_ts(pre, source).video_ts,
    ensures
        post.output_video_ts >= pre.output_video_ts,
        post.output_audio_ts == pre.output_audio_ts,
{
}

/// The video floor holds between IDRs: while some other source holds the
/// video floor, a video packet that leads to an emitted tag can only be a
/// seekable NALU.  Between two consecutive seekable NALUs the mixer
/// therefore admits no video packet from a non-current source.
pub proof fn lemma_video_floor_holds(
    pre: FifoMixer,
    post: FifoMixer,
    out_pre: Seq<u8>,
    out_post: Seq<u8>,
    source: MixerSource,
    data: Seq<u8>,
    timestamp: i32,
    r: Result<(), MixerError>,
)
    requires
        spec_source_video(pre, post, out_pre, out_post, source, data, timestamp, r),
        pre.current_video_source is Some,
        pre.current_video_source != Some(source),
        out_post != out_pre,
    ensures
        spec_parse_video_header(data) == Ok::<AvcPacketType, MixerError>(
            AvcPacketType::Nalu {
                composition_offset_millis: spec_parse_video_header(
                    data,
                ).unwrap()->composition_offset_millis,
                seekable: true,
            },
        ),
        post.current_video_source == Some(source),
{
    match spec_parse_video_header(data) {
        Ok(h) => {
            if !spec_video_admit(pre.current_video_source, source, h) {
                assert(out_post == out_pre);
            }
        },
        Err(_) => {
            assert(out_post == out_pre);
        },
    }
}

} // verus!
