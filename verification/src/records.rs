use crate::ident::Id;
use crate::library::{with_artist, with_artists, Library, LibraryView};
use crate::song::{artist_views, Album, AlbumView, Artist, ArtistView, Song, SongView};
use vstd::prelude::*;

verus! {

/// A catalog written out as three lists: the form in which it is saved to a
/// file and loaded from one.
#[derive(Debug)]
pub struct LibraryRecords {
    /// The songs with their identifiers.
    pub songs: Vec<(Id, Song)>,
    /// The albums.
    pub albums: Vec<Album>,
    /// The artists.
    pub artists: Vec<Artist>,
}

/// What `LibraryRecords` hold, as plain mathematical values.
pub struct LibraryRecordsView {
    pub songs: Seq<(Id, SongView)>,
    pub albums: Seq<AlbumView>,
    pub artists: Seq<ArtistView>,
}

/// The views of a list of songs with their identifiers, in the same order.
pub open spec fn song_entry_views(songs: Seq<(Id, Song)>) -> Seq<(Id, SongView)> {
    Seq::new(songs.len(), |i: int| (songs[i].0, songs[i].1@))
}

/// The views of a list of albums, in the same order.
pub open spec fn album_views(albums: Seq<Album>) -> Seq<AlbumView> {
    Seq::new(albums.len(), |i: int| albums[i]@)
}

impl View for LibraryRecords {
    type V = LibraryRecordsView;

    open spec fn view(&self) -> LibraryRecordsView {
        LibraryRecordsView {
            songs: song_entry_views(self.songs@),
            albums: album_views(self.albums@),
            artists: artist_views(self.artists@),
        }
    }
}

impl LibraryView {
    /// The catalog with each of `albums` registered in turn.
    pub open spec fn with_albums(self, albums: Seq<AlbumView>) -> LibraryView
        decreases albums.len(),
    {
        if albums.len() == 0 {
            self
        } else {
            self.with_albums(albums.drop_last()).register_album(albums.last())
        }
    }

    /// The catalog with each of `songs` filed in turn under its identifier.
    pub open spec fn with_songs(self, songs: Seq<(Id, SongView)>) -> LibraryView
        decreases songs.len(),
    {
        if songs.len() == 0 {
            self
        } else {
            self.with_songs(songs.drop_last()).insert_song(songs.last().0, songs.last().1)
        }
    }

    /// The catalog that records make up: the empty catalog with the artists
    /// registered, then the albums, then the songs filed.
    pub open spec fn from_records(records: LibraryRecordsView) -> LibraryView {
        LibraryView { artists: with_artists(Map::empty(), records.artists), ..Self::empty() }
            .with_albums(records.albums).with_songs(records.songs)
    }

    /// Whether `records` list what the catalog holds: every listed song,
    /// album and artist is in the catalog as listed, and everything in the
    /// catalog is listed. The order of a list, and how often it lists a
    /// thing, do not matter.
    pub open spec fn listed_by(self, records: LibraryRecordsView) -> bool {
        &&& forall|i: int|
            0 <= i < records.songs.len() ==> self.songs.contains_key(
                (#[trigger] records.songs[i]).0,
            ) && self.songs[records.songs[i].0] == records.songs[i].1
        &&& forall|k: Id| #[trigger]
            self.songs.contains_key(k) ==> exists|i: int|
                0 <= i < records.songs.len() && (#[trigger] records.songs[i]).0 == k
        &&& forall|i: int|
            0 <= i < records.albums.len() ==> self.albums.contains_key(
                (#[trigger] records.albums[i]).id,
            ) && self.albums[records.albums[i].id] == records.albums[i]
        &&& forall|k: Id| #[trigger]
            self.albums.contains_key(k) ==> exists|i: int|
                0 <= i < records.albums.len() && (#[trigger] records.albums[i]).id == k
        &&& forall|i: int|
            0 <= i < records.artists.len() ==> self.artists.contains_key(
                (#[trigger] records.artists[i]).id,
            ) && self.artists[records.artists[i].id] == records.artists[i]
        &&& forall|k: Id| #[trigger]
            self.artists.contains_key(k) ==> exists|i: int|
                0 <= i < records.artists.len() && (#[trigger] records.artists[i]).id == k
    }

    /// Registering a list of albums keeps the invariant.
    pub proof fn lemma_with_albums_wf(self, albums: Seq<AlbumView>)
        requires
            self.wf(),
        ensures
            self.with_albums(albums).wf(),
        decreases albums.len(),
    {
        if albums.len() > 0 {
            self.lemma_with_albums_wf(albums.drop_last());
            self.with_albums(albums.drop_last()).lemma_register_album_wf(albums.last());
        }
    }

    /// Filing a list of songs keeps the invariant.
    pub proof fn lemma_with_songs_wf(self, songs: Seq<(Id, SongView)>)
        requires
            self.wf(),
        ensures
            self.with_songs(songs).wf(),
        decreases songs.len(),
    {
        if songs.len() > 0 {
            self.lemma_with_songs_wf(songs.drop_last());
            self.with_songs(songs.drop_last()).lemma_insert_song_wf(
                songs.last().0,
                songs.last().1,
            );
        }
    }

    /// Whatever the records hold, the catalog that they make up meets the
    /// invariant.
    pub proof fn lemma_from_records_wf(records: LibraryRecordsView)
        ensures
            Self::from_records(records).wf(),
    {
        let artists = with_artists(Map::empty(), records.artists);
        let registered = LibraryView { artists, ..Self::empty() };
        Self::lemma_with_artists(Map::empty(), records.artists);
        assert(registered.wf());
        registered.lemma_with_albums_wf(records.albums);
        registered.with_albums(records.albums).lemma_with_songs_wf(records.songs);
    }

    /// Round trip: a catalog that meets the invariant is made up again by
    /// any records that list it.
    pub proof fn lemma_records_round_trip(self, records: LibraryRecordsView)
        requires
            self.wf(),
            self.listed_by(records),
        ensures
            Self::from_records(records) == self,
    {
        let artists = with_artists(Map::empty(), records.artists);
        lemma_artists_within(Map::empty(), records.artists, self.artists);
        assert(artists =~= self.artists) by {
            assert forall|k: Id| self.artists.contains_key(k) implies artists.contains_key(k) by {
                let i = choose|i: int|
                    0 <= i < records.artists.len() && (#[trigger] records.artists[i]).id == k;
                assert(artists.contains_key(records.artists[i].id));
            }
            assert(artists.submap_of(self.artists));
            assert(artists.dom() =~= self.artists.dom());
        }
        let registered = LibraryView { artists, ..Self::empty() };
        registered.lemma_albums_within(records.albums, self);
        let filed = registered.with_albums(records.albums);
        assert(filed.albums =~= self.albums) by {
            assert forall|k: Id| self.albums.contains_key(k) implies filed.albums.contains_key(
                k,
            ) by {
                let i = choose|i: int|
                    0 <= i < records.albums.len() && (#[trigger] records.albums[i]).id == k;
            }
        }
        filed.lemma_songs_within(records.songs, self);
        let full = filed.with_songs(records.songs);
        assert(full.songs =~= self.songs) by {
            assert forall|k: Id| self.songs.contains_key(k) implies full.songs.contains_key(k) by {
                let i = choose|i: int|
                    0 <= i < records.songs.len() && (#[trigger] records.songs[i]).0 == k;
            }
        }
    }

    /// Registering albums of `whole`, in a catalog that holds the artists of
    /// `whole` and some of its albums, changes nothing but the albums, and
    /// leaves exactly those albums and the registered ones, as `whole` has
    /// them.
    proof fn lemma_albums_within(self, albums: Seq<AlbumView>, whole: LibraryView)
        requires
            whole.wf(),
            self.artists == whole.artists,
            self.albums.submap_of(whole.albums),
            forall|i: int|
                0 <= i < albums.len() ==> whole.albums.contains_key((#[trigger] albums[i]).id)
                    && whole.albums[albums[i].id] == albums[i],
        ensures
            self.with_albums(albums).artists == self.artists,
            self.with_albums(albums).songs == self.songs,
            self.with_albums(albums).albums.submap_of(whole.albums),
            self.albums.submap_of(self.with_albums(albums).albums),
            forall|i: int|
                0 <= i < albums.len() ==> self.with_albums(albums).albums.contains_key(
                    (#[trigger] albums[i]).id,
                ),
        decreases albums.len(),
    {
        if albums.len() > 0 {
            let front = albums.drop_last();
            assert forall|i: int| 0 <= i < front.len() implies whole.albums.contains_key(
                (#[trigger] front[i]).id,
            ) && whole.albums[front[i].id] == front[i] by {
                assert(front[i] == albums[i]);
            }
            self.lemma_albums_within(front, whole);
            let before = self.with_albums(front);
            let last = albums.last();
            assert(whole.albums.contains_key(last.id) && whole.albums[last.id] == last);
            assert(whole.artists.contains_key(last.artist.id));
            assert(with_artist(before.artists, last.artist) == before.artists);
            let after = self.with_albums(albums);
            assert(after == before.register_album(last));
            assert forall|i: int| 0 <= i < albums.len() implies after.albums.contains_key(
                (#[trigger] albums[i]).id,
            ) by {
                if i < front.len() {
                    assert(front[i] == albums[i]);
                }
            }
        }
    }

    /// Filing songs of `whole`, in a catalog that holds the artists and the
    /// albums of `whole` and some of its songs, changes nothing but the songs,
    /// and leaves exactly those songs and the filed ones, as `whole` has them.
    proof fn lemma_songs_within(self, songs: Seq<(Id, SongView)>, whole: LibraryView)
        requires
            whole.wf(),
            self.artists == whole.artists,
            self.albums == whole.albums,
            self.songs.submap_of(whole.songs),
            forall|i: int|
                0 <= i < songs.len() ==> whole.songs.contains_key((#[trigger] songs[i]).0)
                    && whole.songs[songs[i].0] == songs[i].1,
        ensures
            self.with_songs(songs).artists == self.artists,
            self.with_songs(songs).albums == self.albums,
            self.with_songs(songs).songs.submap_of(whole.songs),
            forall|i: int|
                0 <= i < songs.len() ==> self.with_songs(songs).songs.contains_key(
                    (#[trigger] songs[i]).0,
                ),
        decreases songs.len(),
    {
        if songs.len() > 0 {
            let front = songs.drop_last();
            assert forall|i: int| 0 <= i < front.len() implies whole.songs.contains_key(
                (#[trigger] front[i]).0,
            ) && whole.songs[front[i].0] == front[i].1 by {
                assert(front[i] == songs[i]);
            }
            self.lemma_songs_within(front, whole);
            let before = self.with_songs(front);
            let (id, song) = songs.last();
            assert(whole.songs.contains_key(id) && whole.songs[id] == song);
            assert(whole.resolves(song));
            lemma_artists_known(before.artists, song.artists);
            let after = self.with_songs(songs);
            assert(after == before.insert_song(id, song));
            assert(after.artists == before.artists);
            assert(after.albums == before.albums);
            assert(after.songs == before.songs.insert(id, song));
            assert forall|i: int| 0 <= i < songs.len() implies after.songs.contains_key(
                (#[trigger] songs[i]).0,
            ) by {
                if i < front.len() {
                    assert(front[i] == songs[i]);
                }
            }
        }
    }
}

/// Registering artists whose identifiers are all taken changes nothing.
proof fn lemma_artists_known(artists: Map<Id, ArtistView>, added: Seq<ArtistView>)
    requires
        forall|i: int| 0 <= i < added.len() ==> artists.contains_key((#[trigger] added[i]).id),
    ensures
        with_artists(artists, added) == artists,
    decreases added.len(),
{
    if added.len() > 0 {
        assert forall|i: int| 0 <= i < added.drop_last().len() implies artists.contains_key(
            (#[trigger] added.drop_last()[i]).id,
        ) by {
            assert(added.drop_last()[i] == added[i]);
        }
        lemma_artists_known(artists, added.drop_last());
        assert(artists.contains_key(added.last().id));
    }
}

/// Registering artists of `whole` among some of the artists of `whole`
/// leaves artists of `whole`, as `whole` has them.
proof fn lemma_artists_within(
    artists: Map<Id, ArtistView>,
    added: Seq<ArtistView>,
    whole: Map<Id, ArtistView>,
)
    requires
        artists.submap_of(whole),
        forall|i: int|
            0 <= i < added.len() ==> whole.contains_key((#[trigger] added[i]).id)
                && whole[added[i].id] == added[i],
    ensures
        with_artists(artists, added).submap_of(whole),
        forall|i: int|
            0 <= i < added.len() ==> with_artists(artists, added).contains_key(
                (#[trigger] added[i]).id,
            ),
    decreases added.len(),
{
    if added.len() > 0 {
        let front = added.drop_last();
        assert forall|i: int| 0 <= i < front.len() implies whole.contains_key(
            (#[trigger] front[i]).id,
        ) && whole[front[i].id] == front[i] by {
            assert(front[i] == added[i]);
        }
        lemma_artists_within(artists, front, whole);
        let after = with_artists(artists, added);
        assert(whole.contains_key(added.last().id) && whole[added.last().id] == added.last());
        assert forall|i: int| 0 <= i < added.len() implies after.contains_key(
            (#[trigger] added[i]).id,
        ) by {
            if i < front.len() {
                assert(front[i] == added[i]);
            }
        }
    }
}

impl Library {
    /// The catalog written out as records: every song, album and artist,
    /// each once, in no particular order.
    pub fn to_records(&self) -> (records: LibraryRecords)
        ensures
            self@.listed_by(records@),
            records@.songs.len() == self@.songs.len(),
            records@.albums.len() == self@.albums.len(),
            records@.artists.len() == self@.artists.len(),
    {
        let songs = self.iter_songs();
        let album_entries = self.iter_albums();
        let artist_entries = self.iter_artists();
        let mut albums: Vec<Album> = Vec::new();
        let mut i: usize = 0;
        while i < album_entries.len()
            invariant
                i <= album_entries.len(),
                albums.len() == i,
                forall|j: int| 0 <= j < i ==> (#[trigger] albums[j])@ == album_entries[j].1@,
            decreases album_entries.len() - i,
        {
            albums.push(album_entries[i].1.clone());
            i += 1;
        }
        let mut artists: Vec<Artist> = Vec::new();
        let mut i: usize = 0;
        while i < artist_entries.len()
            invariant
                i <= artist_entries.len(),
                artists.len() == i,
                forall|j: int| 0 <= j < i ==> (#[trigger] artists[j])@ == artist_entries[j].1@,
            decreases artist_entries.len() - i,
        {
            artists.push(artist_entries[i].1.clone());
            i += 1;
        }
        let records = LibraryRecords { songs, albums, artists };
        proof {
            use_type_invariant(self);
            let listed = records@;
            assert forall|i: int| 0 <= i < listed.albums.len() implies self@.albums.contains_key(
                (#[trigger] listed.albums[i]).id,
            ) && self@.albums[listed.albums[i].id] == listed.albums[i] by {
                assert(self@.albums.contains_key(album_entries[i].0));
            }
            assert forall|k: Id| #[trigger] self@.albums.contains_key(k) implies exists|i: int|
                0 <= i < listed.albums.len() && (#[trigger] listed.albums[i]).id == k by {
                let i = choose|i: int|
                    0 <= i < album_entries.len() && (#[trigger] album_entries[i]).0 == k;
                assert(listed.albums[i].id == k);
            }
            assert forall|i: int|
                0 <= i < listed.artists.len() implies self@.artists.contains_key(
                (#[trigger] listed.artists[i]).id,
            ) && self@.artists[listed.artists[i].id] == listed.artists[i] by {
                assert(self@.artists.contains_key(artist_entries[i].0));
            }
            assert forall|k: Id| #[trigger] self@.artists.contains_key(k) implies exists|i: int|
                0 <= i < listed.artists.len() && (#[trigger] listed.artists[i]).id == k by {
                let i = choose|i: int|
                    0 <= i < artist_entries.len() && (#[trigger] artist_entries[i]).0 == k;
                assert(listed.artists[i].id == k);
            }
            assert forall|i: int| 0 <= i < listed.songs.len() implies self@.songs.contains_key(
                (#[trigger] listed.songs[i]).0,
            ) && self@.songs[listed.songs[i].0] == listed.songs[i].1 by {
                assert(self@.songs.contains_key(songs[i].0));
            }
            assert forall|k: Id| #[trigger] self@.songs.contains_key(k) implies exists|i: int|
                0 <= i < listed.songs.len() && (#[trigger] listed.songs[i]).0 == k by {
                let i = choose|i: int| 0 <= i < songs.len() && (#[trigger] songs[i]).0 == k;
                assert(listed.songs[i].0 == k);
            }
        }
        records
    }

    /// The catalog that records make up: the artists are registered, then
    /// the albums, then the songs are filed under their identifiers.
    pub fn from_records(records: LibraryRecords) -> (library: Library)
        ensures
            library@ == LibraryView::from_records(records@),
            library@.wf(),
    {
        let LibraryRecords { songs, albums, artists } = records;
        let mut library = Library::new();
        let ghost listed = LibraryRecordsView {
            songs: song_entry_views(songs@),
            albums: album_views(albums@),
            artists: artist_views(artists@),
        };
        let mut i: usize = 0;
        while i < artists.len()
            invariant
                i <= artists.len(),
                listed.artists == artist_views(artists@),
                library@ == (LibraryView {
                    artists: with_artists(Map::empty(), listed.artists.take(i as int)),
                    ..LibraryView::empty()
                }),
            decreases artists.len() - i,
        {
            library.register_artist(&artists[i]);
            proof {
                let next = listed.artists.take(i + 1);
                assert(next.drop_last() =~= listed.artists.take(i as int));
                assert(next.last() == artists[i as int]@);
            }
            i += 1;
        }
        assert(listed.artists.take(i as int) =~= listed.artists);
        let ghost registered = library@;
        let mut i: usize = 0;
        while i < albums.len()
            invariant
                i <= albums.len(),
                listed.albums == album_views(albums@),
                library@ == registered.with_albums(listed.albums.take(i as int)),
            decreases albums.len() - i,
        {
            library.register_album(&albums[i]);
            proof {
                let next = listed.albums.take(i + 1);
                assert(next.drop_last() =~= listed.albums.take(i as int));
                assert(next.last() == albums[i as int]@);
            }
            i += 1;
        }
        assert(listed.albums.take(i as int) =~= listed.albums);
        let ghost filed = library@;
        let mut i: usize = 0;
        while i < songs.len()
            invariant
                i <= songs.len(),
                listed.songs == song_entry_views(songs@),
                library@ == filed.with_songs(listed.songs.take(i as int)),
            decreases songs.len() - i,
        {
            library.insert_song_with_id(songs[i].0, songs[i].1.clone());
            proof {
                let next = listed.songs.take(i + 1);
                assert(next.drop_last() =~= listed.songs.take(i as int));
                assert(next.last() == (songs[i as int].0, songs[i as int].1@));
            }
            i += 1;
        }
        assert(listed.songs.take(i as int) =~= listed.songs);
        proof {
            use_type_invariant(&library);
        }
        library
    }
}

impl Clone for Library {
    /// A copy of the catalog: the catalog that its own records make up.
    fn clone(&self) -> (copy: Self)
        ensures
            copy@ == self@,
    {
        let records = self.to_records();
        proof {
            use_type_invariant(self);
            self@.lemma_records_round_trip(records@);
        }
        Library::from_records(records)
    }
}

} // verus!
