use crate::ident::{is_random_id, Id};
use crate::library::{Library, LibraryView};
use crate::song::{Song, SongView};
use crate::tags::{chosen_record, file_duration};
use lofty::file::TaggedFile;
use vstd::prelude::*;
use vstd::std_specs::iter::IteratorSpec;

verus! {

/// Whether `path` ends in a file name made of a stem that is not empty, a
/// dot and `extension`, where `extension` holds neither a dot nor a `/`.
/// Letters are compared as they stand: `FLAC` is not `flac`.
pub open spec fn has_extension(path: Seq<char>, extension: Seq<char>) -> bool {
    let dot = path.len() - extension.len() - 1;
    &&& dot >= 1
    &&& path[dot] == '.'
    &&& path[dot - 1] != '/'
    &&& path.skip(dot + 1) == extension
    &&& forall|j: int| 0 <= j < extension.len() ==> extension[j] != '.' && extension[j] != '/'
}

/// Whether `path` names a file of one of the audio formats that are
/// imported: `flac`, `ogg`, `mp3`, `wav` or `aac`.
pub open spec fn is_audio_path(path: Seq<char>) -> bool {
    ||| has_extension(path, "flac"@)
    ||| has_extension(path, "ogg"@)
    ||| has_extension(path, "mp3"@)
    ||| has_extension(path, "wav"@)
    ||| has_extension(path, "aac"@)
}

/// The characters of `text`.
fn chars_of(text: &str) -> (chars: Vec<char>)
    ensures
        chars@ == text@,
{
    let mut chars: Vec<char> = Vec::new();
    for c in it: text.chars()
        invariant
            it.seq() == text@,
            chars@ == text@.take(it.index()),
    {
        chars.push(c);
        assert(text@.take(it.index() + 1) =~= text@.take(it.index()).push(c));
    }
    assert(text@.take(text@.len() as int) =~= text@);
    chars
}

/// Whether the path with the characters `path` has the extension
/// `extension`.
fn path_has_extension(path: &Vec<char>, extension: &str) -> (has: bool)
    ensures
        has == has_extension(path@, extension@),
{
    let wanted = chars_of(extension);
    if path.len() < 2 || wanted.len() > path.len() - 2 {
        return false;
    }
    let dot: usize = path.len() - wanted.len() - 1;
    if path[dot] != '.' || path[dot - 1] == '/' {
        return false;
    }
    let mut j: usize = 0;
    while j < wanted.len()
        invariant
            j <= wanted.len(),
            wanted@ == extension@,
            dot == path.len() - wanted.len() - 1,
            dot >= 1,
            forall|k: int|
                0 <= k < j ==> path[dot + 1 + k] == wanted[k] && wanted[k] != '.' && wanted[k]
                    != '/',
        decreases wanted.len() - j,
    {
        let c = wanted[j];
        if path[dot + 1 + j] != c || c == '.' || c == '/' {
            assert(path@.skip(dot + 1)[j as int] == path@[dot + 1 + j]);
            return false;
        }
        j += 1;
    }
    assert(path@.skip(dot + 1) =~= wanted@);
    true
}

/// Whether `path` names a file of one of the audio formats that are
/// imported.
pub fn is_audio_file(path: &str) -> (audio: bool)
    ensures
        audio == is_audio_path(path@),
{
    let chars = chars_of(path);
    path_has_extension(&chars, "flac") || path_has_extension(&chars, "ogg") || path_has_extension(
        &chars,
        "mp3",
    ) || path_has_extension(&chars, "wav") || path_has_extension(&chars, "aac")
}

/// One thing that a walk of the scanned folder came upon.
pub struct ScanEntry {
    /// The path of the entry.
    pub path: String,
    /// Whether the entry is a regular file.
    pub is_file: bool,
    /// The entry as the tag reader parsed it; `None` where it was not read
    /// or could not be.
    pub file: Option<TaggedFile>,
}

impl ScanEntry {
    /// Whether the entry is imported: it is a regular file with the name of
    /// an audio file, and the tag reader could parse it.
    pub open spec fn accepted(self) -> bool {
        self.is_file && is_audio_path(self.path@) && self.file is Some
    }
}

impl LibraryView {
    /// Whether `after` is `self` once `entry` was dealt with, with `id` as
    /// the outcome. An entry that is not accepted leaves the catalog as it
    /// is. An accepted entry is filed under `id`, a randomly drawn
    /// identifier, as the song that `from_tags` makes of the entry's path,
    /// of the record that the entry's file is read as, and of the playing
    /// time of that file.
    pub open spec fn import_step(
        self,
        entry: ScanEntry,
        id: Option<Id>,
        after: LibraryView,
    ) -> bool {
        match id {
            Some(id) => {
                &&& entry.accepted()
                &&& is_random_id(id)
                &&& after.songs.contains_key(id)
                &&& after == self.insert_song(id, after.songs[id])
                &&& after.songs[id] == SongView::from_tags(
                    entry.path@,
                    chosen_record(entry.file.unwrap()),
                    file_duration(entry.file.unwrap()),
                    after.songs[id].artist_id(),
                    after.songs[id].album_id(),
                )
                &&& after.songs[id].duration.nanos < 1_000_000_000
                &&& is_random_id(after.songs[id].artist_id())
                &&& after.songs[id].album is Some ==> is_random_id(after.songs[id].album_id())
            },
            None => !entry.accepted() && after == self,
        }
    }

    /// Whether `stages` are the catalogs that lead from `self` to `after`
    /// as `entries` are dealt with one by one with `ids` as the outcomes.
    pub open spec fn import_trace(
        self,
        entries: Seq<ScanEntry>,
        ids: Seq<Option<Id>>,
        stages: Seq<LibraryView>,
        after: LibraryView,
    ) -> bool {
        &&& ids.len() == entries.len()
        &&& stages.len() == entries.len() + 1
        &&& stages[0] == self
        &&& stages[entries.len() as int] == after
        &&& forall|i: int|
            0 <= i < entries.len() ==> (#[trigger] stages[i]).import_step(
                entries[i],
                ids[i],
                stages[i + 1],
            )
    }

    /// A scan that comes upon nothing leaves the catalog as it is.
    pub proof fn lemma_import_nothing(
        self,
        entries: Seq<ScanEntry>,
        ids: Seq<Option<Id>>,
        stages: Seq<LibraryView>,
        after: LibraryView,
    )
        requires
            self.import_trace(entries, ids, stages, after),
            entries.len() == 0,
        ensures
            after == self,
    {
    }

    /// Whether the song under `k` in `after` was filed for the entry at place
    /// `i`: the entry is accepted, `k` is its outcome, and the song has the
    /// entry's path and plays as long as the entry's file.
    pub open spec fn filed_for(
        entries: Seq<ScanEntry>,
        ids: Seq<Option<Id>>,
        after: LibraryView,
        k: Id,
        i: int,
    ) -> bool {
        &&& 0 <= i < entries.len()
        &&& entries[i].accepted()
        &&& ids[i] == Some(k)
        &&& after.songs[k].file_path == entries[i].path@
        &&& after.songs[k].duration == file_duration(entries[i].file.unwrap())
    }

    /// After a scan, every song of the catalog is one that the catalog held
    /// before, unchanged, or was filed for an accepted entry of the scan: it
    /// has the path of that entry and the playing time of its file.
    pub proof fn lemma_import_songs(
        self,
        entries: Seq<ScanEntry>,
        ids: Seq<Option<Id>>,
        stages: Seq<LibraryView>,
        after: LibraryView,
        k: Id,
    )
        requires
            self.import_trace(entries, ids, stages, after),
            after.songs.contains_key(k),
        ensures
            (self.songs.contains_key(k) && after.songs[k] == self.songs[k]) || exists|i: int|
                Self::filed_for(entries, ids, after, k, i),
        decreases entries.len(),
    {
        if entries.len() > 0 {
            let n = entries.len() - 1;
            let before_last = stages[n];
            assert(self.import_trace(
                entries.drop_last(),
                ids.drop_last(),
                stages.drop_last(),
                before_last,
            )) by {
                assert forall|i: int| 0 <= i < n implies (#[trigger] stages.drop_last()[i]).import_step(
                    entries.drop_last()[i],
                    ids.drop_last()[i],
                    stages.drop_last()[i + 1],
                ) by {
                    assert(stages[i].import_step(entries[i], ids[i], stages[i + 1]));
                }
            }
            assert(stages[n].import_step(entries[n], ids[n], stages[n + 1]));
            if ids[n] == Some(k) {
                assert(Self::filed_for(entries, ids, after, k, n));
            } else {
                assert(before_last.songs.contains_key(k));
                assert(after.songs[k] == before_last.songs[k]);
                self.lemma_import_songs(
                    entries.drop_last(),
                    ids.drop_last(),
                    stages.drop_last(),
                    before_last,
                    k,
                );
                if !(self.songs.contains_key(k) && before_last.songs[k] == self.songs[k]) {
                    let i = choose|i: int|
                        Self::filed_for(entries.drop_last(), ids.drop_last(), before_last, k, i);
                    assert(entries.drop_last()[i] == entries[i]);
                    assert(ids.drop_last()[i] == ids[i]);
                    assert(Self::filed_for(entries, ids, after, k, i));
                }
            }
        }
    }

    /// A scan never takes a song out of the catalog, and files at most one
    /// song for each entry.
    pub proof fn lemma_import_grows(
        self,
        entries: Seq<ScanEntry>,
        ids: Seq<Option<Id>>,
        stages: Seq<LibraryView>,
        after: LibraryView,
    )
        requires
            self.import_trace(entries, ids, stages, after),
            self.songs.dom().finite(),
        ensures
            self.songs.dom().subset_of(after.songs.dom()),
            after.songs.dom().finite(),
            after.songs.len() <= self.songs.len() + entries.len(),
        decreases entries.len(),
    {
        if entries.len() > 0 {
            let n = entries.len() - 1;
            let before_last = stages[n];
            assert(self.import_trace(
                entries.drop_last(),
                ids.drop_last(),
                stages.drop_last(),
                before_last,
            )) by {
                assert forall|i: int| 0 <= i < n implies (#[trigger] stages.drop_last()[i]).import_step(
                    entries.drop_last()[i],
                    ids.drop_last()[i],
                    stages.drop_last()[i + 1],
                ) by {
                    assert(stages[i].import_step(entries[i], ids[i], stages[i + 1]));
                }
            }
            self.lemma_import_grows(
                entries.drop_last(),
                ids.drop_last(),
                stages.drop_last(),
                before_last,
            );
            assert(stages[n].import_step(entries[n], ids[n], stages[n + 1]));
            match ids[n] {
                Some(id) => {
                    assert(after.songs.dom() =~= before_last.songs.dom().insert(id));
                },
                None => {},
            }
        }
    }
}

impl Library {
    /// Deals with one entry of a scan: files it as a song, under a newly
    /// drawn identifier, if it is accepted, and returns the identifier; does
    /// nothing and returns `None` if it is not.
    pub fn import_file(&mut self, entry: &ScanEntry) -> (id: Option<Id>)
        ensures
            old(self)@.import_step(*entry, id, final(self)@),
            final(self)@.wf(),
    {
        proof {
            use_type_invariant(&*self);
        }
        if !entry.is_file || !is_audio_file(entry.path.as_str()) {
            return None;
        }
        match &entry.file {
            Some(file) => {
                let song = Song::new(entry.path.clone(), file);
                let id = self.insert_song(song);
                Some(id)
            },
            None => None,
        }
    }

    /// Deals with the entries of a scan one by one, as `import_file` does,
    /// and returns the outcome for each. No entry stops the scan.
    pub fn import_dir(&mut self, entries: &Vec<ScanEntry>) -> (ids: Vec<Option<Id>>)
        ensures
            exists|stages: Seq<LibraryView>|
                old(self)@.import_trace(entries@, ids@, stages, final(self)@),
            final(self)@.wf(),
    {
        let mut ids: Vec<Option<Id>> = Vec::new();
        let ghost mut stages: Seq<LibraryView> = seq![self@];
        proof {
            use_type_invariant(&*self);
        }
        let mut i: usize = 0;
        while i < entries.len()
            invariant
                i <= entries.len(),
                ids.len() == i,
                stages.len() == i + 1,
                stages[0] == old(self)@,
                stages[i as int] == self@,
                self@.wf(),
                forall|j: int|
                    0 <= j < i ==> (#[trigger] stages[j]).import_step(
                        entries[j],
                        ids[j],
                        stages[j + 1],
                    ),
            decreases entries.len() - i,
        {
            let ghost before = stages;
            let id = self.import_file(&entries[i]);
            ids.push(id);
            proof {
                stages = stages.push(self@);
                assert forall|j: int| 0 <= j < i + 1 implies (#[trigger] stages[j]).import_step(
                    entries[j],
                    ids[j],
                    stages[j + 1],
                ) by {
                    if j < i {
                        assert(before[j].import_step(entries[j], ids[j], before[j + 1]));
                    }
                }
            }
            i += 1;
        }
        assert(old(self)@.import_trace(entries@, ids@, stages, self@));
        ids
    }
}

} // verus!
