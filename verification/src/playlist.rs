//! The playlist: an ordered list of items, each of which holds one
//! reference to a file.

use crate::engine::NULL_HANDLE;
use crate::file::File;
use crate::format::{FillMode, ANY_SINK_FULL, EVERY_SINK_FULL};
use crate::registry::PointerReferenceCounter;
use vstd::multiset::Multiset;
use vstd::prelude::*;

verus! {

/// A gain or a peak of 1.0, as the bits of a 64-bit float: no adjustment.
pub const UNIT_GAIN: u64 = 0x3FF0_0000_0000_0000;

/// One entry of a playlist. Gain and peak are held as the bits of the
/// 64-bit floats that the engine works with.
#[derive(Clone, Copy, Debug)]
pub struct PlaylistItem {
    groove_playlist_item: usize,
    file: usize,
    gain: u64,
    peak: u64,
}

impl PlaylistItem {
    #[verifier::type_invariant]
    spec fn is_linked(self) -> bool {
        self.groove_playlist_item != NULL_HANDLE && self.file != NULL_HANDLE
    }

    /// The native item that this entry stands for.
    pub closed spec fn handle(self) -> usize {
        self.groove_playlist_item
    }

    /// The native file that the entry plays.
    pub closed spec fn file_handle(self) -> usize {
        self.file
    }

    pub closed spec fn gain_bits(self) -> u64 {
        self.gain
    }

    pub closed spec fn peak_bits(self) -> u64 {
        self.peak
    }

    /// The native item that this entry stands for; never null.
    pub fn id(&self) -> (groove_playlist_item: usize)
        ensures
            groove_playlist_item == self.handle(),
            groove_playlist_item != NULL_HANDLE,
    {
        proof {
            use_type_invariant(self);
        }
        self.groove_playlist_item
    }

    /// The native file that the entry plays; never null.
    pub fn file_id(&self) -> (groove_file: usize)
        ensures
            groove_file == self.file_handle(),
            groove_file != NULL_HANDLE,
    {
        proof {
            use_type_invariant(self);
        }
        self.file
    }

    /// A volume adjustment to apply to the file when it plays, typically
    /// used for loudness compensation.
    pub fn gain(&self) -> (gain: u64)
        ensures
            gain == self.gain_bits(),
    {
        self.gain
    }

    /// The sample peak of the item. Where it is known to be less than 1.0,
    /// the volume adjustment may use a pure amplifier rather than a
    /// compressor.
    pub fn peak(&self) -> (peak: u64)
        ensures
            peak == self.peak_bits(),
    {
        self.peak
    }

    /// One more reference to the file that the entry plays. The entry keeps
    /// its own.
    pub fn file(&self, registry: &mut PointerReferenceCounter) -> (file: File)
        requires
            old(registry)@.count(self.file_handle()) < usize::MAX,
        ensures
            file.handle() == self.file_handle(),
            final(registry)@ == old(registry)@.insert(self.file_handle()),
    {
        proof {
            use_type_invariant(self);
        }
        File::acquire(registry, self.file)
    }
}

/// The files that the items of a playlist play, one for each item, in the
/// order of the items.
pub open spec fn files_of(items: Seq<PlaylistItem>) -> Seq<usize> {
    items.map_values(|item: PlaylistItem| item.file_handle())
}

/// Whether `i` is the first place in `items` of the native item `handle`.
pub open spec fn is_first_position(items: Seq<PlaylistItem>, handle: usize, i: int) -> bool {
    &&& 0 <= i < items.len()
    &&& items[i].handle() == handle
    &&& forall|j: int| 0 <= j < i ==> (#[trigger] items[j]).handle() != handle
}

/// The first place in `items` of the native item `handle`.
pub open spec fn position_of(items: Seq<PlaylistItem>, handle: usize) -> int {
    choose|i: int| is_first_position(items, handle, i)
}

/// An item has one first place only.
pub proof fn lemma_first_position_unique(items: Seq<PlaylistItem>, handle: usize, i: int)
    requires
        is_first_position(items, handle, i),
    ensures
        position_of(items, handle) == i,
{
}

/// What a sequence holds once a value is added at its end, and that the
/// value, if it is new, occurs but once.
proof fn lemma_push_contains(s: Seq<usize>, a: usize)
    ensures
        forall|f: usize| #[trigger] s.push(a).contains(f) <==> s.contains(f) || f == a,
        s.no_duplicates() && !s.contains(a) ==> s.push(a).no_duplicates(),
{
    assert forall|f: usize| #[trigger] s.push(a).contains(f) <==> s.contains(f) || f == a by {
        if s.contains(f) {
            let k = choose|k: int| 0 <= k < s.len() && s[k] == f;
            assert(s.push(a)[k] == f);
        }
        if f == a {
            assert(s.push(a)[s.len() as int] == f);
        }
    }
    if s.no_duplicates() && !s.contains(a) {
        assert forall|i: int, j: int|
            0 <= i < s.push(a).len() && 0 <= j < s.push(a).len() && i != j implies s.push(a)[i]
            != s.push(a)[j] by {
            if i < s.len() {
                assert(s.contains(s[i]));
            }
            if j < s.len() {
                assert(s.contains(s[j]));
            }
        }
    }
}

/// The start of a sequence holds no value more often than the whole.
pub proof fn lemma_prefix_references(files: Seq<usize>, n: int)
    requires
        0 <= n <= files.len(),
    ensures
        files.take(n).to_multiset().subset_of(files.to_multiset()),
    decreases files.len() - n,
{
    if n == files.len() {
        assert(files.take(n) =~= files);
    } else {
        lemma_prefix_references(files, n + 1);
        assert(files.take(n + 1) =~= files.take(n).push(files[n]));
        vstd::seq_lib::to_multiset_build(files.take(n), files[n]);
    }
}

/// The references of a registry after one reference was taken to each of
/// `files` in turn, as `append` and `insert` do for the file of each item.
pub open spec fn with_references(registry: Multiset<usize>, files: Seq<usize>) -> Multiset<usize>
    decreases files.len(),
{
    if files.len() == 0 {
        registry
    } else {
        with_references(registry, files.drop_last()).insert(files.last())
    }
}

/// To add items to a playlist and then to clear it leaves every file with
/// the references that it had before: `clear` takes from the registry
/// exactly what adding the items put there, and the registry holds what
/// `clear` asks of it.
pub proof fn lemma_clear_undoes_appends(registry: Multiset<usize>, files: Seq<usize>)
    ensures
        with_references(registry, files) == registry.add(files.to_multiset()),
        files.to_multiset().subset_of(with_references(registry, files)),
        with_references(registry, files).sub(files.to_multiset()) == registry,
    decreases files.len(),
{
    broadcast use vstd::multiset::group_multiset_axioms;

    if files.len() == 0 {
        files.to_multiset_ensures();
    } else {
        let rest = files.drop_last();
        lemma_clear_undoes_appends(registry, rest);
        assert(files =~= rest.push(files.last()));
        vstd::seq_lib::to_multiset_build(rest, files.last());
    }
}

/// How often `files` holds `f`.
pub open spec fn occurrences(files: Seq<usize>, f: usize) -> nat
    decreases files.len(),
{
    if files.len() == 0 {
        0
    } else if files.last() == f {
        occurrences(files.drop_last(), f) + 1
    } else {
        occurrences(files.drop_last(), f)
    }
}

/// A file is in the multiset of a sequence as often as in the sequence.
pub proof fn lemma_occurrences(files: Seq<usize>, f: usize)
    ensures
        files.to_multiset().count(f) == occurrences(files, f),
    decreases files.len(),
{
    broadcast use vstd::multiset::group_multiset_axioms;

    if files.len() == 0 {
        files.to_multiset_ensures();
    } else {
        let rest = files.drop_last();
        lemma_occurrences(rest, f);
        assert(files =~= rest.push(files.last()));
        vstd::seq_lib::to_multiset_build(rest, files.last());
    }
}

/// The engine's number for a fill mode.
pub open spec fn fill_mode_code(mode: FillMode) -> i32 {
    match mode {
        FillMode::EverySinkFull => EVERY_SINK_FULL,
        FillMode::AnySinkFull => ANY_SINK_FULL,
    }
}

/// An ordered list of items to play. It holds one reference to the file of
/// each of its items.
pub struct Playlist {
    groove_playlist: usize,
    items: Vec<PlaylistItem>,
    gain: u64,
    fill_mode: FillMode,
}

impl View for Playlist {
    type V = Seq<PlaylistItem>;

    closed spec fn view(&self) -> Seq<PlaylistItem> {
        self.items@
    }
}

impl Playlist {
    #[verifier::type_invariant]
    spec fn countable(self) -> bool {
        self.items@.len() <= i32::MAX
    }

    /// The native playlist that this one stands for.
    pub closed spec fn handle(&self) -> usize {
        self.groove_playlist
    }

    pub closed spec fn gain_bits(&self) -> u64 {
        self.gain
    }

    /// The fill mode that was set last.
    pub closed spec fn mode(&self) -> FillMode {
        self.fill_mode
    }

    /// The references that the playlist holds: one to the file of each item.
    pub open spec fn references(&self) -> Multiset<usize> {
        files_of(self@).to_multiset()
    }

    /// An empty playlist for the native playlist that the engine created,
    /// with a gain of 1.0, which decodes until every sink is full.
    pub fn new(groove_playlist: usize) -> (playlist: Self)
        ensures
            playlist@ == Seq::<PlaylistItem>::empty(),
            playlist.references() == Multiset::<usize>::empty(),
            playlist.handle() == groove_playlist,
            playlist.gain_bits() == UNIT_GAIN,
            playlist.mode() == FillMode::EverySinkFull,
    {
        let playlist = Playlist {
            groove_playlist,
            items: Vec::new(),
            gain: UNIT_GAIN,
            fill_mode: FillMode::EverySinkFull,
        };
        proof {
            files_of(playlist@).to_multiset_ensures();
        }
        playlist
    }

    /// The native playlist that this one stands for.
    pub fn id(&self) -> (groove_playlist: usize)
        ensures
            groove_playlist == self.handle(),
    {
        self.groove_playlist
    }

    /// The volume adjustment that applies to all items and all sinks.
    pub fn gain(&self) -> (gain: u64)
        ensures
            gain == self.gain_bits(),
    {
        self.gain
    }

    /// The fill mode that was set last.
    pub fn fill_mode(&self) -> (mode: FillMode)
        ensures
            mode == self.mode(),
    {
        self.fill_mode
    }

    /// The count of items.
    pub fn len(&self) -> (count: i32)
        ensures
            count == self@.len(),
    {
        proof {
            use_type_invariant(self);
        }
        self.items.len() as i32
    }

    /// Whether an item of the playlist stands for the native item `handle`.
    pub open spec fn has_item(&self, handle: usize) -> bool {
        exists|i: int| 0 <= i < self@.len() && (#[trigger] self@[i]).handle() == handle
    }

    /// The place of the given native item in the playlist, if it has one.
    pub fn index_of(&self, handle: usize) -> (found: Option<usize>)
        ensures
            match found {
                Some(i) => is_first_position(self@, handle, i as int),
                None => !self.has_item(handle),
            },
    {
        let mut i: usize = 0;
        while i < self.items.len()
            invariant
                i <= self.items@.len(),
                forall|j: int| 0 <= j < i ==> (#[trigger] self.items@[j]).handle() != handle,
            decreases self.items@.len() - i,
        {
            if self.items[i].groove_playlist_item == handle {
                return Some(i);
            }
            i += 1;
        }
        None
    }

    /// Adds, at the end of the playlist, the item that the engine created
    /// for `file`, and takes one reference to the file for it.
    ///
    /// gain: see `PlaylistItem`. Use `UNIT_GAIN` for no adjustment.
    /// peak: see `PlaylistItem`. Use `UNIT_GAIN` for no adjustment.
    /// Returns the new item.
    pub fn append(
        &mut self,
        registry: &mut PointerReferenceCounter,
        file: &File,
        gain: u64,
        peak: u64,
        inserted: usize,
    ) -> (item: PlaylistItem)
        requires
            inserted != NULL_HANDLE,
            old(self)@.len() < i32::MAX,
            old(registry)@.count(file.handle()) < usize::MAX,
        ensures
            item.handle() == inserted,
            item.file_handle() == file.handle(),
            item.gain_bits() == gain,
            item.peak_bits() == peak,
            final(self)@ == old(self)@.push(item),
            final(registry)@ == old(registry)@.insert(file.handle()),
            final(self).references() == old(self).references().insert(file.handle()),
            final(self).handle() == old(self).handle(),
            final(self).gain_bits() == old(self).gain_bits(),
            final(self).mode() == old(self).mode(),
    {
        let groove_file = file.id();
        registry.incr(groove_file);
        let item = PlaylistItem { groove_playlist_item: inserted, file: groove_file, gain, peak };
        let mut items = Vec::new();
        std::mem::swap(&mut items, &mut self.items);
        items.push(item);
        self.items = items;
        proof {
            assert(files_of(self@) =~= files_of(old(self)@).push(groove_file));
            vstd::seq_lib::to_multiset_build(files_of(old(self)@), groove_file);
        }
        item
    }

    /// Adds the item that the engine created for `file` immediately before
    /// the item `before`, and takes one reference to the file for it.
    ///
    /// gain: see `PlaylistItem`. Use `UNIT_GAIN` for no adjustment.
    /// peak: see `PlaylistItem`. Use `UNIT_GAIN` for no adjustment.
    /// Returns the new item.
    pub fn insert(
        &mut self,
        registry: &mut PointerReferenceCounter,
        file: &File,
        gain: u64,
        peak: u64,
        before: &PlaylistItem,
        inserted: usize,
    ) -> (item: PlaylistItem)
        requires
            inserted != NULL_HANDLE,
            old(self).has_item(before.handle()),
            old(self)@.len() < i32::MAX,
            old(registry)@.count(file.handle()) < usize::MAX,
        ensures
            item.handle() == inserted,
            item.file_handle() == file.handle(),
            item.gain_bits() == gain,
            item.peak_bits() == peak,
            is_first_position(old(self)@, before.handle(), position_of(old(self)@, before.handle())),
            final(self)@ == old(self)@.insert(position_of(old(self)@, before.handle()), item),
            final(registry)@ == old(registry)@.insert(file.handle()),
            final(self).references() == old(self).references().insert(file.handle()),
            final(self).handle() == old(self).handle(),
            final(self).gain_bits() == old(self).gain_bits(),
            final(self).mode() == old(self).mode(),
    {
        let at = self.find(before.id());
        proof {
            lemma_first_position_unique(self@, before.handle(), at as int);
        }
        let groove_file = file.id();
        registry.incr(groove_file);
        let item = PlaylistItem { groove_playlist_item: inserted, file: groove_file, gain, peak };
        let mut items = Vec::new();
        std::mem::swap(&mut items, &mut self.items);
        items.insert(at, item);
        self.items = items;
        proof {
            let before_files = files_of(old(self)@);
            let after_files = files_of(self@);
            assert(after_files.remove(at as int) =~= before_files);
            vstd::seq_lib::to_multiset_remove(after_files, at as int);
            after_files.to_multiset_ensures();
        }
        item
    }

    /// The place of an item that the playlist is known to have.
    fn find(&self, handle: usize) -> (at: usize)
        requires
            self.has_item(handle),
        ensures
            is_first_position(self@, handle, at as int),
    {
        let mut i: usize = 0;
        while self.items[i].groove_playlist_item != handle
            invariant
                i < self.items.len(),
                self.has_item(handle),
                forall|j: int| 0 <= j < i ==> (#[trigger] self.items@[j]).handle() != handle,
            decreases self.items@.len() - i,
        {
            i += 1;
        }
        i
    }

    /// Tells the playlist when to decode. Returns the engine's number for
    /// the mode.
    pub fn set_fill_mode(&mut self, mode: FillMode) -> (mode_int: i32)
        ensures
            final(self).mode() == mode,
            mode_int == fill_mode_code(mode),
            final(self)@ == old(self)@,
            final(self).handle() == old(self).handle(),
            final(self).gain_bits() == old(self).gain_bits(),
    {
        proof {
            use_type_invariant(&*self);
        }
        self.fill_mode = mode;
        match mode {
            FillMode::EverySinkFull => EVERY_SINK_FULL,
            FillMode::AnySinkFull => ANY_SINK_FULL,
        }
    }

    /// Removes all items, and gives back the reference that each of them
    /// held to its file. Returns the native files that no one refers to any
    /// longer, each once: the caller closes them once the engine has
    /// emptied its list.
    pub fn clear(&mut self, registry: &mut PointerReferenceCounter) -> (closed: Vec<usize>)
        requires
            old(self).references().subset_of(old(registry)@),
        ensures
            final(self)@ == Seq::<PlaylistItem>::empty(),
            final(self).references() == Multiset::<usize>::empty(),
            final(registry)@ == old(registry)@.sub(old(self).references()),
            closed@.no_duplicates(),
            forall|f: usize|
                closed@.contains(f) <==> files_of(old(self)@).contains(f) && final(registry)@.count(
                    f,
                ) == 0,
            final(self).handle() == old(self).handle(),
            final(self).gain_bits() == old(self).gain_bits(),
            final(self).mode() == old(self).mode(),
    {
        let ghost files = files_of(self@);
        let ghost before = registry@;
        let mut closed: Vec<usize> = Vec::new();
        let mut i: usize = 0;
        proof {
            files.take(0).to_multiset_ensures();
        }
        while i < self.items.len()
            invariant
                i <= self.items.len(),
                self == old(self),
                files == files_of(self@),
                files.to_multiset().subset_of(before),
                registry@ == before.sub(files.take(i as int).to_multiset()),
                closed@.no_duplicates(),
                forall|f: usize|
                    closed@.contains(f) <==> files.take(i as int).contains(f) && registry@.count(f)
                        == 0,
            decreases self.items.len() - i,
        {
            let groove_file = self.items[i].file;
            proof {
                assert(files.take(i + 1) =~= files.take(i as int).push(groove_file));
                vstd::seq_lib::to_multiset_build(files.take(i as int), groove_file);
                lemma_prefix_references(files, i + 1);
                assert(files.take(i + 1).to_multiset().count(groove_file) <= before.count(
                    groove_file,
                ));
            }
            let ghost released = closed@;
            let ghost counted = registry@;
            let destroy = registry.decr(groove_file);
            if destroy {
                closed.push(groove_file);
            }
            proof {
                lemma_push_contains(files.take(i as int), groove_file);
                lemma_push_contains(released, groove_file);
                assert forall|f: usize|
                    closed@.contains(f) <==> files.take(i + 1).contains(f) && registry@.count(f)
                        == 0 by {
                    assert(registry@.count(f) == if f == groove_file {
                        (counted.count(f) - 1) as nat
                    } else {
                        counted.count(f)
                    });
                }
            }
            i += 1;
        }
        proof {
            assert(files.take(i as int) =~= files);
        }
        let mut items = Vec::new();
        std::mem::swap(&mut items, &mut self.items);
        items.clear();
        self.items = items;
        proof {
            files_of(self@).to_multiset_ensures();
        }
        closed
    }

    /// A walk over the items, from the first to the last.
    pub fn iter(&self) -> (iter: PlaylistIterator<'_>)
        ensures
            iter@ == self@,
    {
        let iter = PlaylistIterator { items: &self.items, pos: 0 };
        iter
    }

    /// Ends the playlist: clears it, as `clear` does. Returns the native
    /// files that no one refers to any longer; the caller has the engine
    /// empty its list, closes them, and only then destroys the native
    /// playlist.
    pub fn destroy(self, registry: &mut PointerReferenceCounter) -> (closed: Vec<usize>)
        requires
            self.references().subset_of(old(registry)@),
        ensures
            final(registry)@ == old(registry)@.sub(self.references()),
            closed@.no_duplicates(),
            forall|f: usize|
                closed@.contains(f) <==> files_of(self@).contains(f) && final(registry)@.count(f)
                    == 0,
    {
        let mut playlist = self;
        playlist.clear(registry)
    }

    /// Whether the registry holds the references of the playlist: for each
    /// file at least as many as the playlist has items that play it.
    pub fn is_covered_by(&self, registry: &PointerReferenceCounter) -> (covered: bool)
        ensures
            covered == self.references().subset_of(registry@),
    {
        let ghost files = files_of(self@);
        let mut i: usize = 0;
        while i < self.items.len()
            invariant
                i <= self.items.len(),
                files == files_of(self@),
                forall|j: int|
                    0 <= j < i ==> files.to_multiset().count(#[trigger] files[j]) <= registry@.count(
                        files[j],
                    ),
            decreases self.items.len() - i,
        {
            let groove_file = self.items[i].file;
            let mut held: usize = 0;
            let mut k: usize = 0;
            while k < self.items.len()
                invariant
                    k <= self.items.len(),
                    files == files_of(self@),
                    held == occurrences(files.take(k as int), groove_file),
                    held <= k,
                decreases self.items.len() - k,
            {
                proof {
                    assert(files.take(k + 1).drop_last() =~= files.take(k as int));
                }
                if self.items[k].file == groove_file {
                    held += 1;
                }
                k += 1;
            }
            proof {
                assert(files.take(k as int) =~= files);
                lemma_occurrences(files, groove_file);
            }
            if held > registry.count(groove_file) {
                return false;
            }
            i += 1;
        }
        proof {
            assert forall|f: usize| files.to_multiset().count(f) <= registry@.count(f) by {
                files.to_multiset_ensures();
                if files.contains(f) {
                    let j = choose|j: int| 0 <= j < files.len() && files[j] == f;
                }
            }
        }
        true
    }

    /// The first item.
    pub fn first(&self) -> (item: PlaylistItem)
        requires
            self@.len() > 0,
        ensures
            item == self@[0],
    {
        self.items[0]
    }

    /// The last item.
    pub fn last(&self) -> (item: PlaylistItem)
        requires
            self@.len() > 0,
        ensures
            item == self@[self@.len() - 1],
    {
        self.items[self.items.len() - 1]
    }
}

/// A walk over the items of a playlist. Its view is what is left of the
/// walk: the items that it has yet to yield, in their order.
pub struct PlaylistIterator<'a> {
    items: &'a Vec<PlaylistItem>,
    pos: usize,
}

impl<'a> View for PlaylistIterator<'a> {
    type V = Seq<PlaylistItem>;

    closed spec fn view(&self) -> Seq<PlaylistItem> {
        self.items@.skip(self.pos as int)
    }
}

impl<'a> PlaylistIterator<'a> {
    #[verifier::type_invariant]
    spec fn in_range(self) -> bool {
        self.pos <= self.items@.len()
    }

    /// Yields the next item; `None` when the walk is over.
    pub fn next(&mut self) -> (item: Option<PlaylistItem>)
        ensures
            old(self)@.len() == 0 ==> item is None && final(self)@ == old(self)@,
            old(self)@.len() > 0 ==> item == Some(old(self)@[0]) && final(self)@ == old(
                self,
            )@.drop_first(),
    {
        proof {
            use_type_invariant(&*self);
        }
        if self.pos < self.items.len() {
            let item = self.items[self.pos];
            self.pos = self.pos + 1;
            Some(item)
        } else {
            None
        }
    }
}

} // verus!
