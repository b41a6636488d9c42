use empy::{Decoder, DecoderStream, Frame, FrameInfo, OwnedDecoderStream, HEADER_BYTES, MAX_SAMPLES};

fn audio_info(samples: i32, frame_offset: i32, frame_bytes: i32, channels: i32, hz: i32) -> FrameInfo {
    FrameInfo { samples, frame_bytes, frame_offset, channels, hz, layer: 3, bitrate_kbps: 128 }
}

fn other_info(frame_offset: i32, frame_bytes: i32) -> FrameInfo {
    FrameInfo { samples: 0, frame_bytes, frame_offset, channels: 0, hz: 0, layer: 0, bitrate_kbps: 0 }
}

/// Ten bytes of filler, then a frame of `len` bytes whose bytes count up from 1.
fn filler_then_frame(len: usize) -> Vec<u8> {
    let mut data = vec![0xaa; 10];
    for i in 0..len {
        data.push((i % 250) as u8 + 1);
    }
    data
}

#[test]
fn empty_buffer_has_no_frame() {
    let data: Vec<u8> = Vec::new();
    let mut stream = DecoderStream::new(&data);
    assert!(stream.next(&FrameInfo::empty()).is_none());
    assert_eq!(stream.offset(), 0);
    assert!(stream.peek(&FrameInfo::empty()).is_none());
    assert!(stream.skip(&FrameInfo::empty()).is_none());
    assert_eq!(stream.offset(), 0);
}

#[test]
fn short_window_has_no_frame_whatever_the_report() {
    let data = [0xffu8, 0xfb, 0x90];
    let mut stream = DecoderStream::new(&data);
    let report = other_info(0, 3);
    assert!(stream.window().len() < HEADER_BYTES);
    assert!(stream.next(&report).is_none());
    assert_eq!(stream.offset(), 0);
    assert!(stream.peek(&report).is_none());
    assert_eq!(stream.offset(), 0);
    assert_eq!(stream.cached_skip(), None);
}

#[test]
fn filler_then_one_mono_frame() {
    let len: usize = 417;
    let data = filler_then_frame(len);
    let mut stream = DecoderStream::new(&data);
    let report = audio_info(1152, 10, (10 + len) as i32, 1, 44100);
    match stream.peek(&report) {
        Some(Frame::Audio(audio)) => {
            assert_eq!(audio.channels(), 1);
            assert_eq!(audio.sample_rate(), 44100);
            assert_eq!(audio.mpeg_layer(), 3);
            assert_eq!(audio.bitrate(), 128);
            assert_eq!(audio.sample_count(), 1152);
            assert_eq!(audio.source(), &data[10..]);
            assert!(!audio.is_decoded());
            assert_eq!(audio.sample_len(), 0);
        },
        _ => panic!("expected audio"),
    }
    assert_eq!(stream.offset(), 0);
    assert_eq!(stream.offset() + stream.cached_skip().unwrap(), 10 + len);
    assert_eq!(stream.skip(&FrameInfo::empty()), Some(10 + len));
    assert_eq!(stream.offset(), 10 + len);
    assert!(stream.next(&FrameInfo::empty()).is_none());
    assert_eq!(stream.offset(), 10 + len);
}

#[test]
fn two_adjacent_frames_in_order() {
    let (l1, l2): (usize, usize) = (417, 418);
    let data: Vec<u8> = (0..l1 + l2).map(|i| (i % 256) as u8).collect();
    let mut stream = DecoderStream::new(&data);
    assert_eq!(stream.offset(), 0);
    match stream.next(&audio_info(1152, 0, l1 as i32, 2, 48000)) {
        Some(Frame::Audio(audio)) => {
            assert_eq!(audio.source(), &data[..l1]);
            assert!(audio.is_decoded());
            assert_eq!(audio.sample_len(), 2304);
        },
        _ => panic!("expected audio"),
    }
    assert_eq!(stream.offset(), l1);
    assert_eq!(stream.window().len(), l2);
    match stream.next(&audio_info(1152, 0, l2 as i32, 2, 48000)) {
        Some(Frame::Audio(audio)) => assert_eq!(audio.source(), &data[l1..]),
        _ => panic!("expected audio"),
    }
    assert_eq!(stream.offset(), l1 + l2);
    assert!(stream.next(&FrameInfo::empty()).is_none());
}

#[test]
fn seek_then_peek_resynchronizes() {
    let data: Vec<u8> = (0..100u8).collect();
    let mut stream = DecoderStream::new(&data);
    assert_eq!(stream.set_offset(40), Ok(()));
    assert_eq!(stream.offset(), 40);
    assert_eq!(stream.window(), &data[40..]);
    match stream.peek(&audio_info(576, 5, 30, 1, 22050)) {
        Some(Frame::Audio(audio)) => {
            assert_eq!(audio.source(), &data[45..70]);
            assert_eq!(audio.sample_rate(), 22050);
        },
        _ => panic!("expected audio"),
    }
    assert_eq!(stream.offset(), 40);
    assert_eq!(stream.skip(&FrameInfo::empty()), Some(30));
    assert_eq!(stream.offset(), 70);
}

#[test]
fn seek_past_end_clamps() {
    let data = vec![1u8; 50];
    let mut stream = DecoderStream::new(&data);
    assert_eq!(stream.set_offset(51), Err(50));
    assert_eq!(stream.offset(), 50);
    assert!(stream.window().is_empty());
    assert!(stream.next(&FrameInfo::empty()).is_none());
    assert_eq!(stream.offset(), 50);
    assert_eq!(stream.set_offset(50), Ok(()));
    assert_eq!(stream.offset(), 50);
}

#[test]
fn seek_forgets_peeked_length() {
    let data = vec![7u8; 64];
    let mut stream = DecoderStream::new(&data);
    assert!(stream.peek(&other_info(0, 20)).is_some());
    assert_eq!(stream.cached_skip(), Some(20));
    assert_eq!(stream.set_offset(8), Ok(()));
    assert_eq!(stream.cached_skip(), None);
    assert_eq!(stream.skip(&other_info(2, 12)), Some(12));
    assert_eq!(stream.offset(), 20);
}

#[test]
fn peek_twice_is_idempotent() {
    let data = filler_then_frame(200);
    let mut stream = DecoderStream::new(&data);
    let report = audio_info(1152, 10, 210, 2, 32000);
    let first = stream.peek(&report);
    let second = stream.peek(&report);
    match (first, second) {
        (Some(Frame::Audio(a)), Some(Frame::Audio(b))) => {
            assert_eq!(a.bitrate(), b.bitrate());
            assert_eq!(a.channels(), b.channels());
            assert_eq!(a.mpeg_layer(), b.mpeg_layer());
            assert_eq!(a.sample_count(), b.sample_count());
            assert_eq!(a.sample_rate(), b.sample_rate());
            assert_eq!(a.source(), b.source());
        },
        _ => panic!("expected audio twice"),
    }
    assert_eq!(stream.offset(), 0);
    assert_eq!(stream.cached_skip(), Some(210));
}

#[test]
fn peek_then_skip_uses_remembered_length() {
    let data = filler_then_frame(300);
    let mut stream = DecoderStream::new(&data);
    let found = stream.peek(&audio_info(1152, 10, 310, 1, 44100));
    let source_len = match found {
        Some(Frame::Audio(audio)) => audio.source().len(),
        _ => panic!("expected audio"),
    };
    // the report handed to skip is not read: the peeked length is used
    assert_eq!(stream.skip(&other_info(0, 5)), Some(310));
    assert_eq!(stream.offset(), 10 + source_len);
    assert_eq!(stream.cached_skip(), None);
}

#[test]
fn skip_without_peek_reads_the_report() {
    let data = vec![3u8; 40];
    let mut stream = DecoderStream::new(&data);
    assert_eq!(stream.skip(&other_info(0, 25)), Some(25));
    assert_eq!(stream.offset(), 25);
    assert!(stream.skip(&FrameInfo::empty()).is_none());
    assert_eq!(stream.offset(), 25);
}

#[test]
fn insufficient_peek_forgets_length() {
    let data = vec![3u8; 40];
    let mut stream = DecoderStream::new(&data);
    assert!(stream.peek(&other_info(0, 25)).is_some());
    assert!(stream.peek(&FrameInfo::empty()).is_none());
    assert_eq!(stream.cached_skip(), None);
    assert!(stream.skip(&FrameInfo::empty()).is_none());
    assert_eq!(stream.offset(), 0);
}

#[test]
fn next_discards_peeked_length() {
    let data = vec![9u8; 80];
    let mut stream = DecoderStream::new(&data);
    assert!(stream.peek(&other_info(0, 30)).is_some());
    match stream.next(&audio_info(1152, 4, 50, 2, 44100)) {
        Some(Frame::Audio(audio)) => assert_eq!(audio.source().len(), 46),
        _ => panic!("expected audio"),
    }
    assert_eq!(stream.offset(), 50);
    assert_eq!(stream.cached_skip(), None);
}

#[test]
fn garbage_only_span_is_other() {
    let data: Vec<u8> = (0..32u8).collect();
    let mut stream = DecoderStream::new(&data);
    match stream.next(&other_info(3, 12)) {
        Some(Frame::Other(bytes)) => assert_eq!(bytes, &data[3..12]),
        _ => panic!("expected other data"),
    }
    assert_eq!(stream.offset(), 12);
}

#[test]
fn round_trip_consumes_whole_buffer() {
    let lens: [usize; 4] = [104, 417, 418, 96];
    let total: usize = lens.iter().sum();
    let data = vec![0x55u8; total];
    let mut stream = DecoderStream::new(&data);
    let mut consumed = 0;
    let mut i = 0;
    loop {
        let report = if i < lens.len() {
            if i == 0 { other_info(0, lens[0] as i32) } else { audio_info(1152, 0, lens[i] as i32, 2, 44100) }
        } else {
            FrameInfo::empty()
        };
        let before = stream.offset();
        if stream.next(&report).is_none() {
            break;
        }
        consumed += stream.offset() - before;
        i += 1;
    }
    assert_eq!(i, lens.len());
    assert_eq!(consumed, data.len());
}

#[test]
fn audio_metadata_is_narrowed_as_the_engine_gives_it() {
    let data = vec![0u8; 16];
    let mut decoder = Decoder::new();
    let report = FrameInfo { samples: 384, frame_bytes: 16, frame_offset: 0, channels: 2, hz: 8000, layer: 1, bitrate_kbps: 0 };
    match decoder.decode(&data, true, &report) {
        Some((Frame::Audio(audio), n)) => {
            assert_eq!(n, 16);
            assert_eq!(audio.bitrate(), 0);
            assert_eq!(audio.mpeg_layer(), 1);
            assert_eq!(audio.sample_rate(), 8000);
            assert_eq!(audio.sample_len(), 768);
        },
        _ => panic!("expected audio"),
    }
    assert!(decoder.decode(&data, false, &FrameInfo::empty()).is_none());
    assert!(decoder.decode(&data[..3], false, &report).is_none());
}

#[test]
fn engine_length_is_clamped() {
    let data = vec![0u8; 1000];
    assert_eq!(Decoder::engine_len(&data), 1000);
    assert_eq!(Decoder::engine_len(&[]), 0);
    assert!(Decoder::wants_engine(&data[..4]));
    assert!(!Decoder::wants_engine(&data[..3]));
}

#[test]
fn report_validity() {
    assert!(FrameInfo::empty().is_valid_for(0));
    assert!(audio_info(1152, 10, 100, 2, 44100).is_valid_for(100));
    assert!(!audio_info(1152, 10, 101, 2, 44100).is_valid_for(100));
    assert!(!audio_info(1152, 20, 10, 2, 44100).is_valid_for(100));
    assert!(!audio_info(1152, 0, 100, 0, 44100).is_valid_for(100));
    assert!(!audio_info(1153, 0, 100, 2, 44100).is_valid_for(100));
    assert!(!audio_info(1152, 0, 0, 1, 44100).is_valid_for(100));
    assert!(!audio_info(-1, 0, 10, 1, 44100).is_valid_for(100));
    assert!(audio_info(MAX_SAMPLES as i32, 0, 10, 1, 44100).is_valid_for(100));
    assert!(!other_info(-1, 10).is_valid_for(100));
}

#[test]
fn owned_stream_runs_like_the_borrowing_one() {
    let data = filler_then_frame(100);
    let mut stream = OwnedDecoderStream::new(data.clone());
    match stream.peek(&audio_info(1152, 10, 110, 1, 44100)) {
        Some(Frame::Audio(audio)) => assert_eq!(audio.source(), &data[10..]),
        _ => panic!("expected audio"),
    }
    assert_eq!(stream.offset(), 0);
    assert_eq!(stream.cached_skip(), Some(110));
    assert_eq!(stream.skip(&FrameInfo::empty()), Some(110));
    assert_eq!(stream.offset(), 110);
    assert!(stream.window().is_empty());
    assert!(stream.next(&FrameInfo::empty()).is_none());
    assert_eq!(stream.set_offset(200), Err(110));
    assert_eq!(stream.set_offset(10), Ok(()));
    match stream.next(&other_info(0, 100)) {
        Some(Frame::Other(bytes)) => assert_eq!(bytes, &data[10..]),
        _ => panic!("expected other data"),
    }
    assert_eq!(stream.offset(), 110);
}
