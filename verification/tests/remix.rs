use flvmux::cutup::{scan_tags, shuffle_audio, write_tag_with_timestamp, FileRange};
use flvmux::errors::ErrorKind;
use flvmux::flv::{write_flv_header, write_media_tag_header, MediaType};

fn push_tag(out: &mut Vec<u8>, media: MediaType, payload: &[u8], ts: i32) {
    write_media_tag_header(out, media, payload.len() as u32, ts);
    out.extend_from_slice(payload);
    out.extend_from_slice(&((payload.len() as u32 + 11).to_be_bytes()));
}

fn small_flv() -> Vec<u8> {
    let mut flv: Vec<u8> = Vec::new();
    write_flv_header(&mut flv);
    push_tag(&mut flv, MediaType::Video, &[0x17, 0x00, 0, 0, 0], 0);
    push_tag(&mut flv, MediaType::Audio, &[0xAF, 0x00], 0);
    push_tag(&mut flv, MediaType::Audio, &[0xAF, 0x01, 0x11], 5);
    push_tag(&mut flv, MediaType::Video, &[0x17, 0x01, 0, 0, 0, 0x22], 10);
    push_tag(&mut flv, MediaType::Audio, &[0xAF, 0x01, 0x33], 15);
    push_tag(&mut flv, MediaType::Video, &[0x17, 0x02], 20);
    flv
}

#[test]
fn scan_finds_all_tags() {
    let flv = small_flv();
    let map = scan_tags(&flv).unwrap();

    // The first tag starts right after the 13 header bytes.
    assert_eq!(map.video_sequence_header.offset, 13);
    assert_eq!(map.video_sequence_header.length, 11 + 5);
    // Each following tag starts 4 bytes (the previous-size trailer) after
    // the one before it ends.
    assert_eq!(map.audio_sequence_header.offset, 13 + 16 + 4);
    assert_eq!(map.audio_sequence_header.length, 11 + 2);

    assert_eq!(map.audio_tags.len(), 2);
    assert_eq!(map.audio_tags[0].timestamp, 5);
    assert_eq!(map.audio_tags[1].timestamp, 15);

    assert_eq!(map.video_tags.len(), 1);
    assert_eq!(map.video_tags[0].decode_timestamp, 10);
    assert!(map.video_tags[0].seekable);
    assert_eq!(map.video_tags[0].composition_time_offset, 0);

    assert_eq!(map.end_of_sequence_timestamp, 20);
    assert_eq!(map.video_end_of_sequence.length, 11 + 2);
}

#[test]
fn scan_rejects_bad_previous_size() {
    let mut flv = small_flv();
    // Corrupt the first previous-size trailer (4 bytes after the first
    // tag's 16 bytes, at 13 + 16).
    flv[13 + 16 + 3] ^= 1;
    let e = scan_tags(&flv).unwrap_err();
    assert_eq!(e.kind, ErrorKind::InvalidData);
}

#[test]
fn scan_rejects_truncated_stream() {
    let mut flv = small_flv();
    flv.pop();
    let e = scan_tags(&flv).unwrap_err();
    assert_eq!(e.kind, ErrorKind::InvalidData);
}

#[test]
fn scan_requires_all_landmarks() {
    // A stream with no video at all fails the scan at its clean end.
    let mut flv: Vec<u8> = Vec::new();
    write_flv_header(&mut flv);
    push_tag(&mut flv, MediaType::Audio, &[0xAF, 0x00], 0);
    let e = scan_tags(&flv).unwrap_err();
    assert_eq!(e.kind, ErrorKind::InvalidData);
}

#[test]
fn dump_reproduces_an_ordered_stream() {
    let flv = small_flv();
    let map = scan_tags(&flv).unwrap();
    let mut out: Vec<u8> = Vec::new();
    map.dump(&flv, &mut out).unwrap();
    // The source was already in timestamp order with the same layout the
    // dump writes, so the round trip is byte-identical.
    assert_eq!(out, flv);
}

#[test]
fn dump_fails_on_out_of_bounds_ranges() {
    let flv = small_flv();
    let mut map = scan_tags(&flv).unwrap();
    map.video_end_of_sequence.offset = flv.len() as u64;
    let mut out: Vec<u8> = Vec::new();
    let e = map.dump(&flv, &mut out).unwrap_err();
    assert_eq!(e.kind, ErrorKind::Io);
}

#[test]
fn patched_tag_carries_the_new_timestamp() {
    let flv = small_flv();
    let map = scan_tags(&flv).unwrap();
    let mut out: Vec<u8> = Vec::new();
    let mut buf: Vec<u8> = Vec::new();
    write_tag_with_timestamp(map.audio_tags[0].range, -1, &flv, &mut out, &mut buf).unwrap();
    // Timestamp -1 is low24 = FF FF FF with the high byte FF.
    assert_eq!(&out[4..8], &[0xFF, 0xFF, 0xFF, 0xFF]);
    // Everything else is the stored tag, then its length as the trailer.
    assert_eq!(out[0], 8);
    let n = out.len();
    assert_eq!(&out[n - 4..], &(map.audio_tags[0].range.length).to_be_bytes());
}

#[test]
fn file_range_read_checks_bounds() {
    let data: Vec<u8> = vec![1, 2, 3, 4, 5];
    let mut buf: Vec<u8> = Vec::new();
    FileRange { offset: 1, length: 3 }.read(&data, &mut buf).unwrap();
    assert_eq!(buf, vec![2, 3, 4]);
    let e = FileRange { offset: 3, length: 3 }.read(&data, &mut buf).unwrap_err();
    assert_eq!(e.kind, ErrorKind::Io);
    assert_eq!(buf, vec![2, 3, 4]);
}

#[test]
fn shuffle_keeps_timestamps_and_ranges() {
    let flv = small_flv();
    let mut map = scan_tags(&flv).unwrap();
    // Spread the audio tags over several ten-second slices.
    map.audio_tags.clear();
    for i in 0..40u32 {
        map.audio_tags.push(flvmux::cutup::AudioTag {
            timestamp: (i * 3000) as i32,
            range: FileRange { offset: 1000 + i as u64, length: 14 },
        });
    }
    let originals = map.audio_tags.clone();

    let mut rng = rand::thread_rng();
    let shuffled = shuffle_audio(&map, &mut rng);

    assert_eq!(shuffled.len(), originals.len());
    // Timestamps stay in their original positions.
    for i in 0..originals.len() {
        assert_eq!(shuffled[i].timestamp, originals[i].timestamp);
    }
    // The stored ranges are a permutation of the originals.
    let mut got: Vec<u64> = shuffled.iter().map(|t| t.range.offset).collect();
    let mut want: Vec<u64> = originals.iter().map(|t| t.range.offset).collect();
    got.sort();
    want.sort();
    assert_eq!(got, want);
}

#[test]
fn shuffle_of_empty_audio_is_empty() {
    let flv = small_flv();
    let mut map = scan_tags(&flv).unwrap();
    map.audio_tags.clear();
    let mut rng = rand::thread_rng();
    assert!(shuffle_audio(&map, &mut rng).is_empty());
}
