use flvmux::errors::ErrorKind;
use flvmux::flv::{
    read_audio_header, read_tag_header, read_video_header, write_audio_tag_header,
    write_flv_header, write_media_tag_header, write_video_tag, write_video_tag_header,
    AacAudioPacketType, AvcPacketType, MediaType,
};

#[test]
fn header_only_stream() {
    let mut out: Vec<u8> = Vec::new();
    write_flv_header(&mut out);
    assert_eq!(
        out,
        vec![0x46, 0x4C, 0x56, 0x01, 0x05, 0x00, 0x00, 0x00, 0x09, 0x00, 0x00, 0x00, 0x00]
    );
}

#[test]
fn single_video_sequence_header_on_wire() {
    // A video tag with a 7-byte payload (one VIDEODATA byte, the 4-byte
    // AVCVIDEOPACKET header, and the two payload bytes AA BB) at ts 0.
    let mut out: Vec<u8> = Vec::new();
    write_video_tag_header(&mut out, 7, 0);
    out.extend_from_slice(&[0x17, 0x00, 0x00, 0x00, 0x00, 0xAA, 0xBB]);
    out.extend_from_slice(&18u32.to_be_bytes());
    let expected: Vec<u8> = vec![
        0x09, 0x00, 0x00, 0x07, 0x00, 0x00, 0x00, 0x00, 0x00, 0x00, 0x00, 0x17, 0x00, 0x00, 0x00,
        0x00, 0xAA, 0xBB, 0x00, 0x00, 0x00, 0x12,
    ];
    assert_eq!(out, expected);

    // write_video_tag emits the same bytes in one call.
    let mut whole: Vec<u8> = Vec::new();
    write_video_tag(&mut whole, 0, AvcPacketType::SequenceHeader, &vec![0xAA, 0xBB]);
    assert_eq!(whole, expected);
}

#[test]
fn tag_header_roundtrip_timestamps() {
    for ts in [i32::MIN, i32::MIN + 1, -1, 0, 1, 42, 0x7fffff, -0x800000, i32::MAX] {
        let mut out: Vec<u8> = Vec::new();
        write_media_tag_header(&mut out, MediaType::Audio, 2, ts);
        let h = read_tag_header(&out, 0).unwrap();
        assert_eq!(h.tagtype, 8);
        assert_eq!(h.datasize, 2);
        assert_eq!(h.decode_ts, ts);
    }
}

#[test]
fn tag_header_rejects_nonzero_stream_id() {
    let mut out: Vec<u8> = Vec::new();
    write_video_tag_header(&mut out, 1, 0);
    out[10] = 1;
    let e = read_tag_header(&out, 0).unwrap_err();
    assert_eq!(e.kind, ErrorKind::InvalidData);
}

#[test]
fn composition_offset_roundtrip() {
    for v in [-0x800000, -0x7fffff, -1, 0, 1, 1234, 0x7ffffe, 0x7fffff] {
        let mut out: Vec<u8> = Vec::new();
        write_video_tag(
            &mut out,
            0,
            AvcPacketType::Nalu { composition_offset_millis: v, seekable: false },
            &Vec::new(),
        );
        // The payload begins after the 11-byte tag header.
        let payload: Vec<u8> = out[11..16].to_vec();
        match read_video_header(&payload).unwrap() {
            AvcPacketType::Nalu { composition_offset_millis, seekable } => {
                assert_eq!(composition_offset_millis, v);
                assert!(!seekable);
            }
            _ => panic!("expected a NALU"),
        }
    }
}

#[test]
fn audio_header_parses() {
    assert!(matches!(
        read_audio_header(&vec![0xAF, 0x00]).unwrap(),
        AacAudioPacketType::SequenceHeader
    ));
    assert!(matches!(
        read_audio_header(&vec![0xAF, 0x01, 0x55]).unwrap(),
        AacAudioPacketType::Raw
    ));
}

#[test]
fn audio_header_rejects_non_aac() {
    let e = read_audio_header(&vec![0xAE, 0x00]).unwrap_err();
    assert_eq!(e.kind, ErrorKind::InvalidData);
    let e = read_audio_header(&vec![0x00, 0x01]).unwrap_err();
    assert_eq!(e.kind, ErrorKind::InvalidData);
    // An unknown packet-type byte is invalid too.
    let e = read_audio_header(&vec![0xAF, 0x02]).unwrap_err();
    assert_eq!(e.kind, ErrorKind::InvalidData);
    // Truncation is a different failure.
    let e = read_audio_header(&vec![0xAF]).unwrap_err();
    assert_eq!(e.kind, ErrorKind::Io);
    let e = read_audio_header(&Vec::new()).unwrap_err();
    assert_eq!(e.kind, ErrorKind::Io);
}

#[test]
fn video_header_parses() {
    assert!(matches!(
        read_video_header(&vec![0x17, 0x00]).unwrap(),
        AvcPacketType::SequenceHeader
    ));
    assert!(matches!(
        read_video_header(&vec![0x27, 0x02]).unwrap(),
        AvcPacketType::SequenceEnd
    ));
    match read_video_header(&vec![0x17, 0x01, 0x00, 0x00, 0x05, 0xD0]).unwrap() {
        AvcPacketType::Nalu { composition_offset_millis, seekable } => {
            assert_eq!(composition_offset_millis, 5);
            assert!(seekable);
        }
        _ => panic!("expected a NALU"),
    }
}

#[test]
fn video_header_sign_extends_offset() {
    // 0xFFFFFF is -1 as a signed 24-bit value.
    match read_video_header(&vec![0x27, 0x01, 0xFF, 0xFF, 0xFF]).unwrap() {
        AvcPacketType::Nalu { composition_offset_millis, .. } => {
            assert_eq!(composition_offset_millis, -1);
        }
        _ => panic!("expected a NALU"),
    }
    // 0x800000 is the most negative value.
    match read_video_header(&vec![0x27, 0x01, 0x80, 0x00, 0x00]).unwrap() {
        AvcPacketType::Nalu { composition_offset_millis, .. } => {
            assert_eq!(composition_offset_millis, -0x800000);
        }
        _ => panic!("expected a NALU"),
    }
}

#[test]
fn video_header_rejects_unknown_codes() {
    let e = read_video_header(&vec![0x37, 0x00]).unwrap_err();
    assert_eq!(e.kind, ErrorKind::InvalidData);
    let e = read_video_header(&vec![0x18, 0x00]).unwrap_err();
    assert_eq!(e.kind, ErrorKind::InvalidData);
    let e = read_video_header(&vec![0x17, 0x03]).unwrap_err();
    assert_eq!(e.kind, ErrorKind::InvalidData);
    let e = read_video_header(&vec![0x17]).unwrap_err();
    assert_eq!(e.kind, ErrorKind::Io);
    let e = read_video_header(&vec![0x17, 0x01, 0x00]).unwrap_err();
    assert_eq!(e.kind, ErrorKind::Io);
}

#[test]
fn encoder_ticks_become_millisecond_stamps() {
    // 90,000 ticks decode (1000 ms), presented 900 ticks (10 ms) later.
    let mut out: Vec<u8> = Vec::new();
    flvmux::flv::write_video_tag_from_ticks(&mut out, 90000, 90900, true, &vec![0x65]);
    let expected: Vec<u8> = vec![
        0x09, 0x00, 0x00, 0x06, 0x00, 0x03, 0xE8, 0x00, 0x00, 0x00, 0x00, // tag header
        0x17, 0x01, 0x00, 0x00, 0x0A, // VIDEODATA + AVCVIDEOPACKET headers
        0x65, // payload
        0x00, 0x00, 0x00, 0x11, // previous tag size 17
    ];
    assert_eq!(out, expected);
}

#[test]
fn video_tag_trailer_counts_header_and_payload() {
    let mut out: Vec<u8> = Vec::new();
    let data: Vec<u8> = vec![1, 2, 3];
    write_video_tag(&mut out, 7, AvcPacketType::SequenceEnd, &data);
    // data_size is 3 + 5; the trailer is 11 more.
    let n = out.len();
    assert_eq!(&out[n - 4..], &19u32.to_be_bytes());
    assert_eq!(n, 3 + 20);
}
