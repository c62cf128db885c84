use groove::{File, FillMode, Playlist, PlaylistItem, PointerReferenceCounter, UNIT_GAIN};

fn handles(playlist: &Playlist) -> Vec<usize> {
    let mut iter = playlist.iter();
    let mut seen = Vec::new();
    loop {
        match iter.next() {
            Some(item) => seen.push(item.id()),
            None => break,
        }
    }
    seen
}

fn open(registry: &mut PointerReferenceCounter, handle: usize) -> File {
    File::open(registry, handle).unwrap()
}

#[test]
fn unit_gain_is_one() {
    assert_eq!(UNIT_GAIN, 1.0f64.to_bits());
    assert_eq!(f64::from_bits(UNIT_GAIN), 1.0);
}

#[test]
fn new_playlist_is_empty_with_defaults() {
    let playlist = Playlist::new(0x9000);
    assert_eq!(playlist.id(), 0x9000);
    assert_eq!(playlist.len(), 0);
    assert_eq!(f64::from_bits(playlist.gain()), 1.0);
    assert_eq!(playlist.fill_mode(), FillMode::EverySinkFull);
    assert!(playlist.iter().next().is_none());
}

#[test]
fn append_adds_at_the_end_and_takes_a_reference() {
    let mut registry = PointerReferenceCounter::new();
    let mut playlist = Playlist::new(0x9000);
    let file = open(&mut registry, 0x5000);
    let item = playlist.append(&mut registry, &file, 0.5f64.to_bits(), 0.25f64.to_bits(), 0xa1);
    assert_eq!(item.id(), 0xa1);
    assert_eq!(item.file_id(), 0x5000);
    assert_eq!(f64::from_bits(item.gain()), 0.5);
    assert_eq!(f64::from_bits(item.peak()), 0.25);
    assert_eq!(playlist.len(), 1);
    assert_eq!(registry.count(0x5000), 2);
    let other = open(&mut registry, 0x6000);
    playlist.append(&mut registry, &other, UNIT_GAIN, UNIT_GAIN, 0xa2);
    assert_eq!(handles(&playlist), vec![0xa1, 0xa2]);
    assert_eq!(playlist.first().id(), 0xa1);
    assert_eq!(playlist.last().id(), 0xa2);
    assert_eq!(playlist.len(), 2);
}

#[test]
fn iter_yields_a_c_b_when_c_is_inserted_before_b() {
    let mut registry = PointerReferenceCounter::new();
    let mut playlist = Playlist::new(0x9000);
    let file_a = open(&mut registry, 0x5000);
    let file_b = open(&mut registry, 0x6000);
    let file_c = open(&mut registry, 0x7000);
    let a = playlist.append(&mut registry, &file_a, UNIT_GAIN, UNIT_GAIN, 0xa);
    let b = playlist.append(&mut registry, &file_b, UNIT_GAIN, UNIT_GAIN, 0xb);
    let c = playlist.insert(&mut registry, &file_c, UNIT_GAIN, UNIT_GAIN, &b, 0xc);
    assert_eq!(handles(&playlist), vec![a.id(), c.id(), b.id()]);
    assert_eq!(handles(&playlist), vec![0xa, 0xc, 0xb]);
    let mut iter = playlist.iter();
    assert_eq!(iter.next().map(|item| item.file_id()), Some(0x5000));
    assert_eq!(iter.next().map(|item| item.file_id()), Some(0x7000));
    assert_eq!(iter.next().map(|item| item.file_id()), Some(0x6000));
    assert!(iter.next().is_none());
    assert!(iter.next().is_none());
}

#[test]
fn insert_before_the_first_item_makes_a_new_first() {
    let mut registry = PointerReferenceCounter::new();
    let mut playlist = Playlist::new(0x9000);
    let file = open(&mut registry, 0x5000);
    let a = playlist.append(&mut registry, &file, UNIT_GAIN, UNIT_GAIN, 0xa);
    let z = playlist.insert(&mut registry, &file, 2.0f64.to_bits(), 0.5f64.to_bits(), &a, 0xf);
    assert_eq!(f64::from_bits(z.gain()), 2.0);
    assert_eq!(f64::from_bits(z.peak()), 0.5);
    assert_eq!(handles(&playlist), vec![0xf, 0xa]);
    assert_eq!(playlist.first().id(), 0xf);
    assert_eq!(playlist.last().id(), 0xa);
    assert_eq!(registry.count(0x5000), 3);
}

#[test]
fn iter_starts_over_with_each_call() {
    let mut registry = PointerReferenceCounter::new();
    let mut playlist = Playlist::new(0x9000);
    let file = open(&mut registry, 0x5000);
    playlist.append(&mut registry, &file, UNIT_GAIN, UNIT_GAIN, 0xa);
    playlist.append(&mut registry, &file, UNIT_GAIN, UNIT_GAIN, 0xb);
    assert_eq!(handles(&playlist), vec![0xa, 0xb]);
    assert_eq!(handles(&playlist), vec![0xa, 0xb]);
}

#[test]
fn index_of_finds_the_place_of_an_item() {
    let mut registry = PointerReferenceCounter::new();
    let mut playlist = Playlist::new(0x9000);
    let file = open(&mut registry, 0x5000);
    playlist.append(&mut registry, &file, UNIT_GAIN, UNIT_GAIN, 0xa);
    playlist.append(&mut registry, &file, UNIT_GAIN, UNIT_GAIN, 0xb);
    assert_eq!(playlist.index_of(0xa), Some(0));
    assert_eq!(playlist.index_of(0xb), Some(1));
    assert_eq!(playlist.index_of(0xc), None);
}

#[test]
fn append_then_clear_returns_each_count_to_what_it_was() {
    let mut registry = PointerReferenceCounter::new();
    let mut playlist = Playlist::new(0x9000);
    let files: Vec<File> =
        vec![open(&mut registry, 0x5000), open(&mut registry, 0x6000), open(&mut registry, 0x7000)];
    // one more owner of the second file
    let extra = open(&mut registry, 0x6000);
    let before: Vec<usize> = files.iter().map(|file| registry.count(file.id())).collect();
    assert_eq!(before, vec![1, 2, 1]);
    let mut inserted = 0x100;
    for file in files.iter() {
        playlist.append(&mut registry, file, UNIT_GAIN, UNIT_GAIN, inserted);
        inserted += 1;
    }
    // the first file twice
    playlist.append(&mut registry, &files[0], UNIT_GAIN, UNIT_GAIN, inserted);
    assert_eq!(playlist.len(), 4);
    assert_eq!(registry.count(0x5000), 3);
    assert_eq!(registry.count(0x6000), 3);
    assert_eq!(registry.count(0x7000), 2);
    assert!(playlist.is_covered_by(&registry));
    let closed = playlist.clear(&mut registry);
    assert_eq!(playlist.len(), 0);
    assert!(closed.is_empty());
    let after: Vec<usize> = files.iter().map(|file| registry.count(file.id())).collect();
    assert_eq!(after, before);
    assert!(!extra.close(&mut registry));
}

#[test]
fn clear_names_the_files_that_it_held_the_last_reference_to() {
    let mut registry = PointerReferenceCounter::new();
    let mut playlist = Playlist::new(0x9000);
    let kept = open(&mut registry, 0x5000);
    let dropped = open(&mut registry, 0x6000);
    playlist.append(&mut registry, &kept, UNIT_GAIN, UNIT_GAIN, 0xa);
    playlist.append(&mut registry, &dropped, UNIT_GAIN, UNIT_GAIN, 0xb);
    playlist.append(&mut registry, &dropped, UNIT_GAIN, UNIT_GAIN, 0xc);
    // the owner lets go of the second file; the playlist keeps it alive
    assert!(!dropped.close(&mut registry));
    assert_eq!(registry.count(0x6000), 2);
    let closed = playlist.clear(&mut registry);
    assert_eq!(closed, vec![0x6000]);
    assert_eq!(registry.count(0x6000), 0);
    assert_eq!(registry.count(0x5000), 1);
    assert_eq!(playlist.len(), 0);
    assert!(kept.close(&mut registry));
}

#[test]
fn clear_of_an_empty_playlist_changes_nothing() {
    let mut registry = PointerReferenceCounter::new();
    let mut playlist = Playlist::new(0x9000);
    let file = open(&mut registry, 0x5000);
    let closed = playlist.clear(&mut registry);
    assert!(closed.is_empty());
    assert_eq!(registry.count(0x5000), 1);
    assert_eq!(file.id(), 0x5000);
}

#[test]
fn destroy_clears_the_playlist() {
    let mut registry = PointerReferenceCounter::new();
    let mut playlist = Playlist::new(0x9000);
    let file = open(&mut registry, 0x5000);
    playlist.append(&mut registry, &file, UNIT_GAIN, UNIT_GAIN, 0xa);
    assert!(!file.close(&mut registry));
    let closed = playlist.destroy(&mut registry);
    assert_eq!(closed, vec![0x5000]);
    assert_eq!(registry.count(0x5000), 0);
}

#[test]
fn is_covered_by_tells_when_a_reference_is_missing() {
    let mut registry = PointerReferenceCounter::new();
    let mut playlist = Playlist::new(0x9000);
    let file = open(&mut registry, 0x5000);
    playlist.append(&mut registry, &file, UNIT_GAIN, UNIT_GAIN, 0xa);
    playlist.append(&mut registry, &file, UNIT_GAIN, UNIT_GAIN, 0xb);
    assert!(playlist.is_covered_by(&registry));
    assert!(!file.close(&mut registry));
    assert!(playlist.is_covered_by(&registry));
    // a release too many: one item is left without its reference
    assert!(!registry.decr(0x5000));
    assert!(!playlist.is_covered_by(&registry));
    let empty = Playlist::new(0x9001);
    assert!(empty.is_covered_by(&registry));
}

#[test]
fn item_file_is_one_more_reference() {
    let mut registry = PointerReferenceCounter::new();
    let mut playlist = Playlist::new(0x9000);
    let file = open(&mut registry, 0x5000);
    let item: PlaylistItem = playlist.append(&mut registry, &file, UNIT_GAIN, UNIT_GAIN, 0xa);
    let alias = item.file(&mut registry);
    assert_eq!(alias.id(), 0x5000);
    assert_eq!(registry.count(0x5000), 3);
    assert!(!alias.close(&mut registry));
    assert_eq!(registry.count(0x5000), 2);
}

#[test]
fn set_fill_mode_gives_the_code_of_the_mode() {
    let mut playlist = Playlist::new(0x9000);
    assert_eq!(playlist.set_fill_mode(FillMode::AnySinkFull), 1);
    assert_eq!(playlist.fill_mode(), FillMode::AnySinkFull);
    assert_eq!(playlist.set_fill_mode(FillMode::EverySinkFull), 0);
    assert_eq!(playlist.fill_mode(), FillMode::EverySinkFull);
}
