use groove::{
    version, AudioFormat, ChannelLayout, File, GrooveAudioFormat, InvalidUtf8,
    PointerReferenceCounter, SampleFormat, SampleType, Tag, TagEdit, TagQuery,
};

#[test]
fn open_with_null_handle_gives_no_file_and_counts_nothing() {
    let mut registry = PointerReferenceCounter::new();
    assert!(File::open(&mut registry, 0).is_none());
    assert_eq!(registry.count(0), 0);
}

#[test]
fn open_takes_one_reference() {
    let mut registry = PointerReferenceCounter::new();
    let file = File::open(&mut registry, 0x5000).unwrap();
    assert_eq!(file.id(), 0x5000);
    assert_eq!(registry.count(0x5000), 1);
}

#[test]
fn close_of_the_only_reference_destroys() {
    let mut registry = PointerReferenceCounter::new();
    let file = File::open(&mut registry, 0x5000).unwrap();
    assert!(file.close(&mut registry));
    assert_eq!(registry.count(0x5000), 0);
}

#[test]
fn close_of_one_of_two_references_keeps_the_file() {
    let mut registry = PointerReferenceCounter::new();
    let first = File::open(&mut registry, 0x5000).unwrap();
    let second = File::open(&mut registry, 0x5000).unwrap();
    assert_eq!(registry.count(0x5000), 2);
    assert!(!first.close(&mut registry));
    assert_eq!(registry.count(0x5000), 1);
    assert!(second.close(&mut registry));
    assert_eq!(registry.count(0x5000), 0);
}

#[test]
fn is_dirty_only_for_the_flag_one() {
    let mut registry = PointerReferenceCounter::new();
    let file = File::open(&mut registry, 0x5000).unwrap();
    assert!(file.is_dirty(1));
    assert!(!file.is_dirty(0));
    assert!(!file.is_dirty(2));
    assert!(!file.is_dirty(-1));
}

#[test]
fn metadata_get_reads_the_tag_handle() {
    let mut registry = PointerReferenceCounter::new();
    let file = File::open(&mut registry, 0x5000).unwrap();
    assert_eq!(file.metadata_get(0), None);
    assert_eq!(file.metadata_get(0x77), Some(Tag { groove_tag: 0x77 }));
}

#[test]
fn tag_query_lookup_asks_from_the_start() {
    let sensitive = TagQuery::lookup("artist", true);
    assert_eq!(sensitive.key, "artist");
    assert_eq!(sensitive.prev, 0);
    assert_eq!(sensitive.flags, 1);
    let insensitive = TagQuery::lookup("Artist", false);
    assert_eq!(insensitive.key, "Artist");
    assert_eq!(insensitive.prev, 0);
    assert_eq!(insensitive.flags, 0);
}

#[test]
fn tag_edit_set_carries_the_value() {
    let edit = TagEdit::set("title", "Song", false);
    assert_eq!(edit.key, "title");
    assert_eq!(edit.value, Some(String::from("Song")));
    assert_eq!(edit.flags, 0);
    let edit = TagEdit::set("title", "", true);
    assert_eq!(edit.value, Some(String::new()));
    assert_eq!(edit.flags, 1);
}

#[test]
fn tag_edit_delete_carries_no_value() {
    let edit = TagEdit::delete("title", true);
    assert_eq!(edit.key, "title");
    assert_eq!(edit.value, None);
    assert_eq!(edit.flags, 1);
    let edit = TagEdit::delete("title", false);
    assert_eq!(edit.flags, 0);
}

#[test]
fn metadata_set_delete_and_save_read_the_status() {
    let mut registry = PointerReferenceCounter::new();
    let file = File::open(&mut registry, 0x5000).unwrap();
    assert_eq!(file.metadata_set(0), Ok(()));
    assert_eq!(file.metadata_set(-5), Err(-5));
    assert_eq!(file.metadata_delete(3), Ok(()));
    assert_eq!(file.metadata_delete(-2), Err(-2));
    assert_eq!(file.save(0), Ok(()));
    assert_eq!(file.save(-13), Err(-13));
}

#[test]
fn metadata_iter_walks_until_the_engine_has_no_tag_left() {
    let mut registry = PointerReferenceCounter::new();
    let file = File::open(&mut registry, 0x5000).unwrap();
    let mut iter = file.metadata_iter();
    assert_eq!(iter.file_id(), 0x5000);
    // the engine's answers, in turn
    let answers = [0x10usize, 0x20, 0x30, 0];
    let mut asked_after = Vec::new();
    let mut tags = Vec::new();
    for answer in answers.iter() {
        let query = iter.query();
        assert_eq!(query.key, "");
        assert_eq!(query.flags, 0);
        asked_after.push(query.prev);
        match iter.next(*answer) {
            Some(tag) => tags.push(tag.groove_tag),
            None => break,
        }
    }
    assert_eq!(asked_after, vec![0, 0x10, 0x20, 0x30]);
    assert_eq!(tags, vec![0x10, 0x20, 0x30]);
    // after the end the walk starts over
    assert_eq!(iter.query().prev, 0);
}

#[test]
fn metadata_iter_over_a_file_without_tags() {
    let mut registry = PointerReferenceCounter::new();
    let file = File::open(&mut registry, 0x5000).unwrap();
    let mut iter = file.metadata_iter();
    assert_eq!(iter.next(0), None);
}

#[test]
fn tag_key_and_value_decode_utf8() {
    let tag = Tag { groove_tag: 0x10 };
    assert_eq!(tag.key(b"artist"), Ok("artist"));
    assert_eq!(tag.value("Bj\u{f6}rk".as_bytes()), Ok("Bj\u{f6}rk"));
    assert_eq!(tag.key(b""), Ok(""));
}

#[test]
fn tag_key_and_value_refuse_invalid_utf8() {
    let tag = Tag { groove_tag: 0x10 };
    assert_eq!(tag.key(&[0x61, 0xff, 0x62]), Err(InvalidUtf8));
    assert_eq!(tag.value(&[0xc3]), Err(InvalidUtf8));
    assert_eq!(tag.value(&[0xed, 0xa0, 0x80]), Err(InvalidUtf8));
}

#[test]
fn version_reads_the_version_string() {
    assert_eq!(version(b"4.3.0"), "4.3.0");
}

#[test]
fn audio_format_reads_the_numbers_of_the_engine() {
    let mut registry = PointerReferenceCounter::new();
    let file = File::open(&mut registry, 0x5000).unwrap();
    let raw = GrooveAudioFormat { sample_rate: 44100, channel_layout: 3, sample_fmt: 6 };
    assert_eq!(
        file.audio_format(&raw),
        AudioFormat {
            sample_rate: 44100,
            channel_layout: ChannelLayout::LayoutStereo,
            sample_fmt: SampleFormat { sample_type: SampleType::S16, planar: true },
        }
    );
}
