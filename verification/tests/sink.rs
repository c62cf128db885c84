use groove::{
    Attachment, AudioFormat, BufferStatus, ChannelLayout, File, GrooveAudioFormat, GrooveBuffer,
    Playlist, PointerReferenceCounter, SampleFormat, SampleType, Sink, UNIT_GAIN,
};

fn stereo_s16() -> AudioFormat {
    AudioFormat {
        sample_rate: 44100,
        channel_layout: ChannelLayout::LayoutStereo,
        sample_fmt: SampleFormat { sample_type: SampleType::S16, planar: false },
    }
}

fn decoded_record(handle: usize, item: usize, frame_count: u32, pts: u64) -> GrooveBuffer {
    GrooveBuffer {
        handle,
        format: stereo_s16().to_groove(),
        channel_count: 2,
        frame_count,
        item,
        size: frame_count * 4,
        pts,
    }
}

fn no_buffer() -> GrooveBuffer {
    GrooveBuffer {
        handle: 0,
        format: GrooveAudioFormat { sample_rate: 0, channel_layout: 0, sample_fmt: 0 },
        channel_count: 0,
        frame_count: 0,
        item: 0,
        size: 0,
        pts: 0,
    }
}

#[test]
fn new_sink_is_not_attached() {
    let sink = Sink::new(0x3000);
    assert_eq!(sink.id(), 0x3000);
    assert_eq!(sink.attachment(), Attachment::Created);
    assert!(!sink.attachment().is_attached());
    assert_eq!(sink.audio_format(), None);
    assert!(!sink.is_resample_disabled());
}

#[test]
fn set_audio_format_gives_the_numbers_for_the_engine() {
    let mut sink = Sink::new(0x3000);
    let raw = sink.set_audio_format(stereo_s16());
    assert_eq!(raw, GrooveAudioFormat { sample_rate: 44100, channel_layout: 3, sample_fmt: 1 });
    assert_eq!(sink.audio_format(), Some(stereo_s16()));
}

#[test]
fn disable_resample_gives_the_flag_for_the_engine() {
    let mut sink = Sink::new(0x3000);
    assert_eq!(sink.disable_resample(true), 1);
    assert!(sink.is_resample_disabled());
    assert_eq!(sink.disable_resample(false), 0);
    assert!(!sink.is_resample_disabled());
}

#[test]
fn attach_succeeds_on_a_status_that_is_not_negative() {
    let playlist = Playlist::new(0x9000);
    let mut sink = Sink::new(0x3000);
    assert_eq!(sink.attach(&playlist, 0), Ok(()));
    assert_eq!(sink.attachment(), Attachment::Attached(0x9000));
    assert!(sink.attachment().is_attached());
}

#[test]
fn attach_fails_with_the_status_of_the_engine() {
    let playlist = Playlist::new(0x9000);
    let mut sink = Sink::new(0x3000);
    assert_eq!(sink.attach(&playlist, -12), Err(-12));
    assert_eq!(sink.attachment(), Attachment::Created);
    // a later attempt may succeed
    assert_eq!(sink.attach(&playlist, 5), Ok(()));
    assert_eq!(sink.attachment(), Attachment::Attached(0x9000));
}

#[test]
fn detach_leaves_the_playlist() {
    let playlist = Playlist::new(0x9000);
    let mut sink = Sink::new(0x3000);
    sink.detach();
    assert_eq!(sink.attachment(), Attachment::Created);
    assert_eq!(sink.attach(&playlist, 0), Ok(()));
    sink.detach();
    assert_eq!(sink.attachment(), Attachment::Detached);
    sink.detach();
    assert_eq!(sink.attachment(), Attachment::Detached);
    // and may be attached again, to another playlist too
    let other = Playlist::new(0x9100);
    assert_eq!(sink.attach(&other, 0), Ok(()));
    assert_eq!(sink.attachment(), Attachment::Attached(0x9100));
}

#[test]
fn destroy_tells_whether_to_detach_first() {
    let playlist = Playlist::new(0x9000);
    let mut attached = Sink::new(0x3000);
    assert_eq!(attached.attach(&playlist, 0), Ok(()));
    assert!(attached.destroy());
    let mut detached = Sink::new(0x3001);
    assert_eq!(detached.attach(&playlist, 0), Ok(()));
    detached.detach();
    assert!(!detached.destroy());
    assert!(!Sink::new(0x3002).destroy());
}

#[test]
fn buffer_get_blocking_hands_out_the_buffer_or_the_end() {
    let sink = Sink::new(0x3000);
    let record = decoded_record(0xb0, 0xa1, 1024, 77);
    let decoded = sink.buffer_get_blocking(BufferStatus::Yes, record).unwrap();
    assert_eq!(decoded.record(), record);
    assert_eq!(decoded.frame_count(), 1024);
    assert_eq!(decoded.pts(), 77);
    assert!(sink.buffer_get_blocking(BufferStatus::End, no_buffer()).is_none());
    assert!(sink.buffer_get_blocking(BufferStatus::End, record).is_none());
}

#[test]
fn sink_pulls_a_finite_run_of_buffers_and_then_one_end() {
    let mut registry = PointerReferenceCounter::new();
    let mut playlist = Playlist::new(0x9000);
    let file = File::open(&mut registry, 0x5000).unwrap();
    playlist.append(&mut registry, &file, UNIT_GAIN, UNIT_GAIN, 0xa1);
    let mut sink = Sink::new(0x3000);
    sink.set_audio_format(stereo_s16());
    assert_eq!(sink.attach(&playlist, 0), Ok(()));
    // what the engine answers to the pulls, in turn
    let answers = vec![
        (1, decoded_record(0xb0, 0xa1, 1024, 0)),
        (1, decoded_record(0xb1, 0xa1, 1024, 1024)),
        (1, decoded_record(0xb2, 0xa1, 512, 2048)),
        (2, no_buffer()),
    ];
    let mut buffers = Vec::new();
    let mut ends = 0;
    let mut pulls = 0;
    for (code, record) in answers {
        pulls += 1;
        let status = BufferStatus::from_groove(code).unwrap();
        match sink.buffer_get_blocking(status, record) {
            Some(decoded) => {
                // no buffer arrives after the end
                assert_eq!(ends, 0);
                assert_eq!(decoded.as_slice_i16().len, 2 * u64::from(decoded.frame_count()));
                buffers.push(decoded.release());
            }
            None => {
                ends += 1;
                break;
            }
        }
    }
    assert_eq!(buffers, vec![0xb0, 0xb1, 0xb2]);
    assert_eq!(ends, 1);
    assert_eq!(pulls, 4);
}
