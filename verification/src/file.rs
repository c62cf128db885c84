//! Media files and their metadata tags.
//!
//! The engine opens, reads and writes the files. This module keeps the
//! count of the owners of each native file, says what is asked of the
//! engine for each tag operation, and reads its answers.

use crate::engine::{check_status, match_flags, status_outcome, tag_match_flags, NULL_HANDLE};
use crate::format::{AudioFormat, ChannelLayout, GrooveAudioFormat, SampleFormat};
use crate::registry::PointerReferenceCounter;
use vstd::prelude::*;
use vstd::string::StringSliceAdditionalSpecFns;
use vstd::utf8::valid_utf8;

verus! {

/// The error of `core::str::from_utf8`; nothing is read from it here.
#[verifier::external_type_specification]
#[verifier::external_body]
pub struct ExUtf8Error(core::str::Utf8Error);

/// `core::str::from_utf8` succeeds on the byte strings that are valid UTF-8
/// and on no others, and the string it returns then has the given bytes.
pub assume_specification<'a>[ core::str::from_utf8 ](v: &'a [u8]) -> (res: Result<
    &'a str,
    core::str::Utf8Error,
>)
    ensures
        res is Ok <==> valid_utf8(v@),
        res matches Ok(s) ==> s.spec_bytes() == v@,
;

/// One owner's reference to an open native file.
///
/// Each `File` stands for one reference in the registry: `open` and
/// `PlaylistItem::file` take it, `close` gives it back.
pub struct File {
    groove_file: usize,
}

/// A text of the engine that is not valid UTF-8.
#[derive(Clone, Copy, Debug, PartialEq, Eq, Structural)]
pub struct InvalidUtf8;

/// One metadata tag of a file: a key and a value, both held by the engine.
#[derive(Clone, Copy, Debug, PartialEq, Eq, Structural)]
pub struct Tag {
    pub groove_tag: usize,
}

/// A question to the engine about the tags of a file.
pub struct TagQuery {
    /// The key to look for; empty to match every tag.
    pub key: String,
    /// The tag after which to look, as a handle; null to look from the start.
    pub prev: usize,
    pub flags: i32,
}

/// A change of one tag, to hand to the engine.
pub struct TagEdit {
    pub key: String,
    /// The new value; `None` to delete the tag.
    pub value: Option<String>,
    pub flags: i32,
}

impl TagQuery {
    /// The question for the first tag with the given key.
    pub fn lookup(key: &str, case_sensitive: bool) -> (query: TagQuery)
        ensures
            query.key@ == key@,
            query.prev == NULL_HANDLE,
            query.flags == match_flags(case_sensitive),
    {
        TagQuery { key: key.to_owned(), prev: NULL_HANDLE, flags: tag_match_flags(case_sensitive) }
    }
}

impl TagEdit {
    /// The change that gives the tag `key` the value `value`.
    pub fn set(key: &str, value: &str, case_sensitive: bool) -> (edit: TagEdit)
        ensures
            edit.key@ == key@,
            edit.value matches Some(v) && v@ == value@,
            edit.flags == match_flags(case_sensitive),
    {
        TagEdit {
            key: key.to_owned(),
            value: Some(value.to_owned()),
            flags: tag_match_flags(case_sensitive),
        }
    }

    /// The change that deletes the tag `key`.
    pub fn delete(key: &str, case_sensitive: bool) -> (edit: TagEdit)
        ensures
            edit.key@ == key@,
            edit.value is None,
            edit.flags == match_flags(case_sensitive),
    {
        TagEdit { key: key.to_owned(), value: None, flags: tag_match_flags(case_sensitive) }
    }
}

/// What a tag handle that the engine answered with stands for: null is no
/// tag.
pub open spec fn tag_of(groove_tag: usize) -> Option<Tag> {
    if groove_tag == NULL_HANDLE {
        None
    } else {
        Some(Tag { groove_tag })
    }
}

/// Reads a text of the engine.
fn decode_text<'a>(raw: &'a [u8]) -> (text: Result<&'a str, InvalidUtf8>)
    ensures
        text is Ok <==> valid_utf8(raw@),
        text matches Ok(s) ==> s.spec_bytes() == raw@,
{
    match core::str::from_utf8(raw) {
        Ok(s) => Ok(s),
        Err(_) => Err(InvalidUtf8),
    }
}

impl Tag {
    /// The key of the tag, from the bytes that the engine holds for it.
    pub fn key<'a>(&self, raw: &'a [u8]) -> (key: Result<&'a str, InvalidUtf8>)
        ensures
            key is Ok <==> valid_utf8(raw@),
            key matches Ok(s) ==> s.spec_bytes() == raw@,
    {
        decode_text(raw)
    }

    /// The value of the tag, from the bytes that the engine holds for it.
    pub fn value<'a>(&self, raw: &'a [u8]) -> (value: Result<&'a str, InvalidUtf8>)
        ensures
            value is Ok <==> valid_utf8(raw@),
            value matches Ok(s) ==> s.spec_bytes() == raw@,
    {
        decode_text(raw)
    }
}

/// The engine's version, from the bytes of its version string.
pub fn version<'a>(raw: &'a [u8]) -> (version: &'a str)
    requires
        valid_utf8(raw@),
    ensures
        version.spec_bytes() == raw@,
{
    core::str::from_utf8(raw).unwrap()
}

impl File {
    #[verifier::type_invariant]
    spec fn is_open(self) -> bool {
        self.groove_file != NULL_HANDLE
    }

    /// The native file that this is a reference to.
    pub closed spec fn handle(&self) -> usize {
        self.groove_file
    }

    /// The native file that this is a reference to; never null.
    pub fn id(&self) -> (groove_file: usize)
        ensures
            groove_file == self.handle(),
            groove_file != NULL_HANDLE,
    {
        proof {
            use_type_invariant(self);
        }
        self.groove_file
    }

    /// One more reference to a native file.
    pub(crate) fn acquire(registry: &mut PointerReferenceCounter, groove_file: usize) -> (file: File)
        requires
            groove_file != NULL_HANDLE,
            old(registry)@.count(groove_file) < usize::MAX,
        ensures
            file.handle() == groove_file,
            final(registry)@ == old(registry)@.insert(groove_file),
    {
        registry.incr(groove_file);
        File { groove_file }
    }

    /// Takes over the native file that the engine opened. A null handle
    /// means that the engine could not open the file: then there is no
    /// `File`, and nothing is counted.
    pub fn open(registry: &mut PointerReferenceCounter, groove_file: usize) -> (file: Option<File>)
        requires
            old(registry)@.count(groove_file) < usize::MAX,
        ensures
            groove_file == NULL_HANDLE ==> file is None && final(registry)@ == old(registry)@,
            groove_file != NULL_HANDLE ==> (file matches Some(f) && f.handle() == groove_file)
                && final(registry)@ == old(registry)@.insert(groove_file),
    {
        if groove_file == NULL_HANDLE {
            None
        } else {
            Some(File::acquire(registry, groove_file))
        }
    }

    /// Gives the reference back. Returns `true` when it was the last one to
    /// the native file, which the caller then closes.
    pub fn close(self, registry: &mut PointerReferenceCounter) -> (destroy: bool)
        requires
            old(registry)@.count(self.handle()) > 0,
        ensures
            final(registry)@ == old(registry)@.remove(self.handle()),
            destroy == (old(registry)@.count(self.handle()) == 1),
    {
        registry.decr(self.groove_file)
    }

    /// Whether the file has pending edits, from the flag that the engine
    /// keeps.
    pub fn is_dirty(&self, dirty: i32) -> (pending: bool)
        ensures
            pending == (dirty == 1),
    {
        dirty == 1
    }

    /// The tag that the engine found for a `TagQuery`, if any.
    pub fn metadata_get(&self, groove_tag: usize) -> (tag: Option<Tag>)
        ensures
            tag == tag_of(groove_tag),
    {
        if groove_tag == NULL_HANDLE {
            None
        } else {
            Some(Tag { groove_tag })
        }
    }

    /// A walk over all tags of the file, from the first.
    pub fn metadata_iter(&self) -> (iter: MetadataIterator)
        ensures
            iter.file() == self.handle(),
            iter.position() == NULL_HANDLE,
    {
        MetadataIterator { file: self.groove_file, curr: NULL_HANDLE }
    }

    /// The outcome of a `TagEdit::set`, from the engine's status.
    pub fn metadata_set(&self, status: i32) -> (outcome: Result<(), i32>)
        ensures
            outcome == status_outcome(status),
    {
        check_status(status)
    }

    /// The outcome of a `TagEdit::delete`, from the engine's status.
    pub fn metadata_delete(&self, status: i32) -> (outcome: Result<(), i32>)
        ensures
            outcome == status_outcome(status),
    {
        check_status(status)
    }

    /// The outcome of writing the changed tags to disk, from the engine's
    /// status.
    pub fn save(&self, status: i32) -> (outcome: Result<(), i32>)
        ensures
            outcome == status_outcome(status),
    {
        check_status(status)
    }

    /// The audio format of the main audio stream, from the numbers that the
    /// engine reports for it.
    pub fn audio_format(&self, groove_audio_format: &GrooveAudioFormat) -> (format: AudioFormat)
        requires
            groove_audio_format.is_known(),
        ensures
            format.sample_rate == groove_audio_format.sample_rate,
            format.channel_layout == ChannelLayout::of_mask(groove_audio_format.channel_layout),
            format.sample_fmt == SampleFormat::of_code(groove_audio_format.sample_fmt as int),
    {
        AudioFormat::from_groove(groove_audio_format)
    }
}

/// A walk over the tags of a file: each step asks the engine for the tag
/// after the one it answered with last.
pub struct MetadataIterator {
    file: usize,
    curr: usize,
}

impl MetadataIterator {
    /// The native file whose tags are walked.
    pub closed spec fn file(&self) -> usize {
        self.file
    }

    /// The tag that the engine answered with last; null before the first
    /// step and after the last.
    pub closed spec fn position(&self) -> usize {
        self.curr
    }

    /// The native file whose tags are walked.
    pub fn file_id(&self) -> (file: usize)
        ensures
            file == self.file(),
    {
        self.file
    }

    /// What to ask the engine for the next step: any tag, after the one it
    /// answered with last.
    pub fn query(&self) -> (query: TagQuery)
        ensures
            query.key@ == Seq::<char>::empty(),
            query.prev == self.position(),
            query.flags == 0,
    {
        TagQuery { key: String::new(), prev: self.curr, flags: 0 }
    }

    /// Takes the engine's answer to `query`: the next tag, or null when
    /// there is none left.
    pub fn next(&mut self, groove_tag: usize) -> (tag: Option<Tag>)
        ensures
            tag == tag_of(groove_tag),
            final(self).position() == groove_tag,
            final(self).file() == old(self).file(),
    {
        self.curr = groove_tag;
        if groove_tag == NULL_HANDLE {
            None
        } else {
            Some(Tag { groove_tag })
        }
    }
}

} // verus!
