use crate::ident::{fresh_id, is_random_id, Id};
use crate::song::{Album, AlbumView, Artist, ArtistView, Song, SongView};
use std::collections::HashMap;
use vstd::prelude::*;
use vstd::std_specs::hash::spec_hash_map_iter;
use vstd::std_specs::iter::IteratorSpec;

verus! {

/// The catalog: songs, albums and artists, each under its identifier.
pub struct Library {
    songs: HashMap<Id, Song>,
    albums: HashMap<Id, Album>,
    artists: HashMap<Id, Artist>,
}

/// What a `Library` holds, as three mathematical maps.
pub struct LibraryView {
    pub songs: Map<Id, SongView>,
    pub albums: Map<Id, AlbumView>,
    pub artists: Map<Id, ArtistView>,
}

/// `artists` with `artist` added, unless an artist is already filed under
/// that identifier.
pub open spec fn with_artist(artists: Map<Id, ArtistView>, artist: ArtistView) -> Map<
    Id,
    ArtistView,
> {
    if artists.contains_key(artist.id) {
        artists
    } else {
        artists.insert(artist.id, artist)
    }
}

/// `artists` with each of `added` added in turn, the first of two that share
/// an identifier winning.
pub open spec fn with_artists(artists: Map<Id, ArtistView>, added: Seq<ArtistView>) -> Map<
    Id,
    ArtistView,
>
    decreases added.len(),
{
    if added.len() == 0 {
        artists
    } else {
        with_artist(with_artists(artists, added.drop_last()), added.last())
    }
}

impl LibraryView {
    /// The catalog that holds nothing.
    pub open spec fn empty() -> LibraryView {
        LibraryView { songs: Map::empty(), albums: Map::empty(), artists: Map::empty() }
    }

    /// Whether the album and every artist that `song` names are in the
    /// catalog.
    pub open spec fn resolves(self, song: SongView) -> bool {
        &&& song.album matches Some(album) ==> self.albums.contains_key(album.id)
        &&& forall|i: int|
            0 <= i < song.artists.len() ==> self.artists.contains_key(
                #[trigger] song.artists[i].id,
            )
    }

    /// The catalog's invariant: every album and artist is filed under its own
    /// identifier, every album's artist is in the catalog, and so are the
    /// album and the artists that each song names.
    pub open spec fn wf(self) -> bool {
        &&& self.songs.dom().finite()
        &&& self.albums.dom().finite()
        &&& self.artists.dom().finite()
        &&& forall|k: Id| #[trigger]
            self.artists.contains_key(k) ==> self.artists[k].id == k
        &&& forall|k: Id| #[trigger]
            self.albums.contains_key(k) ==> self.albums[k].id == k
                && self.artists.contains_key(self.albums[k].artist.id)
        &&& forall|k: Id| #[trigger] self.songs.contains_key(k) ==> self.resolves(self.songs[k])
    }

    /// The catalog with `artist` added, unless an artist is already filed
    /// under that identifier.
    pub open spec fn register_artist(self, artist: ArtistView) -> LibraryView {
        LibraryView { artists: with_artist(self.artists, artist), ..self }
    }

    /// The catalog with `album` and its artist added. An album already filed
    /// under that identifier stays, and the catalog with it; so does an artist
    /// already filed under the identifier of the album's artist.
    pub open spec fn register_album(self, album: AlbumView) -> LibraryView {
        if self.albums.contains_key(album.id) {
            self
        } else {
            LibraryView {
                albums: self.albums.insert(album.id, album),
                artists: with_artist(self.artists, album.artist),
                ..self
            }
        }
    }

    /// The catalog with `song` filed under `id`, after its artists, in their
    /// order, and then its album were registered. A song already filed under
    /// `id` is replaced.
    pub open spec fn insert_song(self, id: Id, song: SongView) -> LibraryView {
        let registered = LibraryView { artists: with_artists(self.artists, song.artists), ..self };
        let filed = match song.album {
            Some(album) => registered.register_album(album),
            None => registered,
        };
        LibraryView { songs: filed.songs.insert(id, song), ..filed }
    }

    /// Registering artists removes no artist, changes none that was there,
    /// and leaves every one of the added identifiers taken.
    pub proof fn lemma_with_artists(artists: Map<Id, ArtistView>, added: Seq<ArtistView>)
        ensures
            artists.submap_of(with_artists(artists, added)),
            forall|i: int|
                0 <= i < added.len() ==> with_artists(artists, added).contains_key(
                    #[trigger] added[i].id,
                ),
            forall|k: Id| #[trigger]
                with_artists(artists, added).contains_key(k) && !artists.contains_key(k)
                    ==> with_artists(artists, added)[k].id == k,
            artists.dom().finite() ==> with_artists(artists, added).dom().finite(),
        decreases added.len(),
    {
        if added.len() > 0 {
            Self::lemma_with_artists(artists, added.drop_last());
            let before = with_artists(artists, added.drop_last());
            let after = with_artists(artists, added);
            assert(after == with_artist(before, added.last()));
            assert forall|i: int| 0 <= i < added.len() implies after.contains_key(
                #[trigger] added[i].id,
            ) by {
                if i < added.len() - 1 {
                    assert(added.drop_last()[i] == added[i]);
                }
            }
        }
    }

    /// No song of a catalog has a negative duration: a duration is a number
    /// of whole seconds and of nanoseconds, neither of which can be negative.
    pub proof fn lemma_durations_not_negative(self, id: Id)
        requires
            self.songs.contains_key(id),
        ensures
            self.songs[id].duration.total_nanos() >= 0,
            self.songs[id].duration.secs >= 0,
            self.songs[id].duration.nanos >= 0,
    {
    }

    /// The invariant holds of the empty catalog.
    pub proof fn lemma_empty_wf()
        ensures
            Self::empty().wf(),
    {
    }

    /// Registering an artist keeps the invariant.
    pub proof fn lemma_register_artist_wf(self, artist: ArtistView)
        requires
            self.wf(),
        ensures
            self.register_artist(artist).wf(),
    {
        let after = self.register_artist(artist);
        assert forall|k: Id| #[trigger] after.songs.contains_key(k) implies after.resolves(
            after.songs[k],
        ) by {
            assert(self.resolves(self.songs[k]));
        }
    }

    /// Registering an album keeps the invariant.
    pub proof fn lemma_register_album_wf(self, album: AlbumView)
        requires
            self.wf(),
        ensures
            self.register_album(album).wf(),
    {
        let after = self.register_album(album);
        assert forall|k: Id| #[trigger] after.songs.contains_key(k) implies after.resolves(
            after.songs[k],
        ) by {
            assert(self.resolves(self.songs[k]));
        }
    }

    /// Filing a song keeps the invariant: afterwards the catalog holds the
    /// album and every artist that the song names.
    pub proof fn lemma_insert_song_wf(self, id: Id, song: SongView)
        requires
            self.wf(),
        ensures
            self.insert_song(id, song).wf(),
            self.insert_song(id, song).resolves(song),
    {
        Self::lemma_with_artists(self.artists, song.artists);
        let registered = LibraryView { artists: with_artists(self.artists, song.artists), ..self };
        assert(registered.wf()) by {
            assert forall|k: Id| #[trigger]
                registered.songs.contains_key(k) implies registered.resolves(
                registered.songs[k],
            ) by {
                assert(self.resolves(self.songs[k]));
            }
        }
        let filed = match song.album {
            Some(album) => registered.register_album(album),
            None => registered,
        };
        if let Some(album) = song.album {
            registered.lemma_register_album_wf(album);
        }
        let after = self.insert_song(id, song);
        assert(after.resolves(song));
        assert forall|k: Id| #[trigger] after.songs.contains_key(k) implies after.resolves(
            after.songs[k],
        ) by {
            if k != id {
                assert(filed.resolves(filed.songs[k]));
            }
        }
    }
}

/// The views of the songs in a map, under the same keys.
spec fn song_map(songs: Map<Id, Song>) -> Map<Id, SongView> {
    Map::new(|k: Id| songs.contains_key(k), |k: Id| songs[k]@)
}

/// The views of the albums in a map, under the same keys.
spec fn album_map(albums: Map<Id, Album>) -> Map<Id, AlbumView> {
    Map::new(|k: Id| albums.contains_key(k), |k: Id| albums[k]@)
}

/// The views of the artists in a map, under the same keys.
spec fn artist_map(artists: Map<Id, Artist>) -> Map<Id, ArtistView> {
    Map::new(|k: Id| artists.contains_key(k), |k: Id| artists[k]@)
}

/// The catalog that three maps make up.
spec fn catalog(
    songs: Map<Id, Song>,
    albums: Map<Id, Album>,
    artists: Map<Id, Artist>,
) -> LibraryView {
    LibraryView {
        songs: song_map(songs),
        albums: album_map(albums),
        artists: artist_map(artists),
    }
}

/// The views of finitely many values are finitely many.
proof fn lemma_catalog_finite(
    songs: Map<Id, Song>,
    albums: Map<Id, Album>,
    artists: Map<Id, Artist>,
)
    requires
        songs.dom().finite(),
        albums.dom().finite(),
        artists.dom().finite(),
    ensures
        catalog(songs, albums, artists).songs.dom().finite(),
        catalog(songs, albums, artists).albums.dom().finite(),
        catalog(songs, albums, artists).artists.dom().finite(),
{
    assert(song_map(songs).dom() =~= songs.dom());
    assert(album_map(albums).dom() =~= albums.dom());
    assert(artist_map(artists).dom() =~= artists.dom());
}

/// Adds `artist` to `artists` unless its identifier is taken.
fn add_artist(artists: &mut HashMap<Id, Artist>, artist: &Artist)
    ensures
        artist_map(final(artists)@) == with_artist(artist_map(old(artists)@), artist@),
{
    if !artists.contains_key(&artist.id) {
        artists.insert(artist.id, artist.clone());
        assert(artist_map(artists@) =~= artist_map(old(artists)@).insert(artist.id, artist@));
    }
}

impl View for Library {
    type V = LibraryView;

    closed spec fn view(&self) -> LibraryView {
        catalog(self.songs@, self.albums@, self.artists@)
    }
}

impl Library {
    /// Every catalog meets the invariant.
    #[verifier::type_invariant]
    pub open spec fn inv(self) -> bool {
        self@.wf()
    }

    /// An empty catalog.
    pub fn new() -> (library: Library)
        ensures
            library@ == LibraryView::empty(),
            library@.wf(),
    {
        let songs: HashMap<Id, Song> = HashMap::new();
        let albums: HashMap<Id, Album> = HashMap::new();
        let artists: HashMap<Id, Artist> = HashMap::new();
        proof {
            assert(song_map(songs@) =~= Map::empty());
            assert(album_map(albums@) =~= Map::empty());
            assert(artist_map(artists@) =~= Map::empty());
        }
        Library { songs, albums, artists }
    }

    /// Takes the three maps out of the catalog and leaves it empty.
    fn take(&mut self) -> (maps: (HashMap<Id, Song>, HashMap<Id, Album>, HashMap<Id, Artist>))
        ensures
            catalog(maps.0@, maps.1@, maps.2@) == old(self)@,
            old(self)@.wf(),
            final(self)@ == LibraryView::empty(),
    {
        proof {
            use_type_invariant(&*self);
        }
        let mut taken = Library::new();
        std::mem::swap(self, &mut taken);
        let Library { songs, albums, artists } = taken;
        (songs, albums, artists)
    }

    /// Adds `artist` unless an artist is already filed under its identifier.
    pub fn register_artist(&mut self, artist: &Artist)
        ensures
            final(self)@ == old(self)@.register_artist(artist@),
            final(self)@.wf(),
    {
        let (songs, albums, mut artists) = self.take();
        add_artist(&mut artists, artist);
        proof {
            old(self)@.lemma_register_artist_wf(artist@);
            lemma_catalog_finite(songs@, albums@, artists@);
        }
        *self = Library { songs, albums, artists };
    }

    /// Adds `album` and its artist, unless an album is already filed under
    /// its identifier.
    pub fn register_album(&mut self, album: &Album)
        ensures
            final(self)@ == old(self)@.register_album(album@),
            final(self)@.wf(),
    {
        let (songs, mut albums, mut artists) = self.take();
        if !albums.contains_key(&album.id) {
            add_artist(&mut artists, &album.artist);
            albums.insert(album.id, album.clone());
            assert(album_map(albums@) =~= old(self)@.albums.insert(album.id, album@));
        }
        proof {
            old(self)@.lemma_register_album_wf(album@);
            lemma_catalog_finite(songs@, albums@, artists@);
        }
        *self = Library { songs, albums, artists };
    }

    /// Files `song` under `id`, after registering its artists, in their order,
    /// and then its album. A song already filed under `id` is replaced.
    pub fn insert_song_with_id(&mut self, id: Id, song: Song)
        ensures
            final(self)@ == old(self)@.insert_song(id, song@),
            final(self)@.wf(),
    {
        let (mut songs, mut albums, mut artists) = self.take();
        let ghost start = artist_map(artists@);
        let mut i: usize = 0;
        while i < song.artists.len()
            invariant
                i <= song.artists.len(),
                artist_map(artists@) == with_artists(start, song@.artists.take(i as int)),
            decreases song.artists.len() - i,
        {
            add_artist(&mut artists, &song.artists[i]);
            proof {
                let next = song@.artists.take(i + 1);
                assert(next.drop_last() =~= song@.artists.take(i as int));
                assert(next.last() == song.artists[i as int]@);
            }
            i += 1;
        }
        assert(song@.artists.take(i as int) =~= song@.artists);
        match &song.album {
            Some(album) => {
                if !albums.contains_key(&album.id) {
                    let ghost before = album_map(albums@);
                    add_artist(&mut artists, &album.artist);
                    albums.insert(album.id, album.clone());
                    assert(album_map(albums@) =~= before.insert(album.id, album@));
                }
            },
            None => {},
        }
        let ghost before = song_map(songs@);
        let ghost filed = song@;
        songs.insert(id, song);
        proof {
            assert(song_map(songs@) =~= before.insert(id, filed));
            old(self)@.lemma_insert_song_wf(id, filed);
            lemma_catalog_finite(songs@, albums@, artists@);
        }
        *self = Library { songs, albums, artists };
    }

    /// Files `song` under a newly drawn identifier and returns it; the song's
    /// artists and album are registered as in `insert_song_with_id`.
    pub fn insert_song(&mut self, song: Song) -> (id: Id)
        ensures
            is_random_id(id),
            final(self)@ == old(self)@.insert_song(id, song@),
            final(self)@.wf(),
    {
        let id = fresh_id();
        self.insert_song_with_id(id, song);
        id
    }

    /// The song filed under `id`, if there is one.
    pub fn get_song(&self, id: Id) -> (song: Option<&Song>)
        ensures
            song.is_some() == self@.songs.contains_key(id),
            song matches Some(s) ==> s@ == self@.songs[id],
    {
        self.songs.get(&id)
    }

    /// The album filed under `id`, if there is one.
    pub fn get_album(&self, id: Id) -> (album: Option<&Album>)
        ensures
            album.is_some() == self@.albums.contains_key(id),
            album matches Some(a) ==> a@ == self@.albums[id],
    {
        self.albums.get(&id)
    }

    /// The artist filed under `id`, if there is one.
    pub fn get_artist(&self, id: Id) -> (artist: Option<&Artist>)
        ensures
            artist.is_some() == self@.artists.contains_key(id),
            artist matches Some(a) ==> a@ == self@.artists[id],
    {
        self.artists.get(&id)
    }

    /// Every song of the catalog with its identifier, each once, in no
    /// particular order.
    pub fn iter_songs(&self) -> (entries: Vec<(Id, Song)>)
        ensures
            entries.len() == self@.songs.len(),
            forall|i: int|
                0 <= i < entries.len() ==> self@.songs.contains_key((#[trigger] entries[i]).0)
                    && entries[i].1@ == self@.songs[entries[i].0],
            forall|i: int, j: int|
                0 <= i < j < entries.len() ==> (#[trigger] entries[i]).0 != (
                #[trigger] entries[j]).0,
            forall|k: Id| #[trigger]
                self@.songs.contains_key(k) ==> exists|i: int|
                    0 <= i < entries.len() && (#[trigger] entries[i]).0 == k,
    {
        let mut entries: Vec<(Id, Song)> = Vec::new();
        let ghost all = spec_hash_map_iter(&self.songs).remaining();
        for pair in it: self.songs.iter()
            invariant
                it.seq() == all,
                all == spec_hash_map_iter(&self.songs).remaining(),
                entries.len() == it.index(),
                forall|j: int|
                    0 <= j < it.index() ==> (#[trigger] entries[j]).0 == *all[j].0
                        && entries[j].1@ == (*all[j].1)@,
        {
            let (id, song) = pair;
            entries.push((*id, song.clone()));
        }
        proof {
            assert(song_map(self.songs@).dom() =~= self.songs@.dom());
            assert forall|i: int, j: int| 0 <= i < j < entries.len() implies (
            #[trigger] entries[i]).0 != (#[trigger] entries[j]).0 by {
                if entries[i].0 == entries[j].0 {
                    assert(self.songs@.contains_key(*all[i].0));
                    assert(self.songs@.contains_key(*all[j].0));
                    assert(all[i] == all[j]);
                }
            }
            assert forall|k: Id| #[trigger] self@.songs.contains_key(k) implies exists|i: int|
                0 <= i < entries.len() && (#[trigger] entries[i]).0 == k by {
                assert(self.songs@.contains_key(k));
                let i = choose|i: int| 0 <= i < all.len() && all[i] == (&k, &self.songs@[k]);
                assert(entries[i].0 == k);
            }
        }
        entries
    }

    /// Every album of the catalog with its identifier, each once, in no
    /// particular order.
    pub fn iter_albums(&self) -> (entries: Vec<(Id, Album)>)
        ensures
            entries.len() == self@.albums.len(),
            forall|i: int|
                0 <= i < entries.len() ==> self@.albums.contains_key((#[trigger] entries[i]).0)
                    && entries[i].1@ == self@.albums[entries[i].0],
            forall|i: int, j: int|
                0 <= i < j < entries.len() ==> (#[trigger] entries[i]).0 != (
                #[trigger] entries[j]).0,
            forall|k: Id| #[trigger]
                self@.albums.contains_key(k) ==> exists|i: int|
                    0 <= i < entries.len() && (#[trigger] entries[i]).0 == k,
    {
        let mut entries: Vec<(Id, Album)> = Vec::new();
        let ghost all = spec_hash_map_iter(&self.albums).remaining();
        for pair in it: self.albums.iter()
            invariant
                it.seq() == all,
                all == spec_hash_map_iter(&self.albums).remaining(),
                entries.len() == it.index(),
                forall|j: int|
                    0 <= j < it.index() ==> (#[trigger] entries[j]).0 == *all[j].0
                        && entries[j].1@ == (*all[j].1)@,
        {
            let (id, album) = pair;
            entries.push((*id, album.clone()));
        }
        proof {
            assert(album_map(self.albums@).dom() =~= self.albums@.dom());
            assert forall|i: int, j: int| 0 <= i < j < entries.len() implies (
            #[trigger] entries[i]).0 != (#[trigger] entries[j]).0 by {
                if entries[i].0 == entries[j].0 {
                    assert(self.albums@.contains_key(*all[i].0));
                    assert(self.albums@.contains_key(*all[j].0));
                    assert(all[i] == all[j]);
                }
            }
            assert forall|k: Id| #[trigger] self@.albums.contains_key(k) implies exists|i: int|
                0 <= i < entries.len() && (#[trigger] entries[i]).0 == k by {
                assert(self.albums@.contains_key(k));
                let i = choose|i: int| 0 <= i < all.len() && all[i] == (&k, &self.albums@[k]);
                assert(entries[i].0 == k);
            }
        }
        entries
    }

    /// Every artist of the catalog with its identifier, each once, in no
    /// particular order.
    pub fn iter_artists(&self) -> (entries: Vec<(Id, Artist)>)
        ensures
            entries.len() == self@.artists.len(),
            forall|i: int|
                0 <= i < entries.len() ==> self@.artists.contains_key((#[trigger] entries[i]).0)
                    && entries[i].1@ == self@.artists[entries[i].0],
            forall|i: int, j: int|
                0 <= i < j < entries.len() ==> (#[trigger] entries[i]).0 != (
                #[trigger] entries[j]).0,
            forall|k: Id| #[trigger]
                self@.artists.contains_key(k) ==> exists|i: int|
                    0 <= i < entries.len() && (#[trigger] entries[i]).0 == k,
    {
        let mut entries: Vec<(Id, Artist)> = Vec::new();
        let ghost all = spec_hash_map_iter(&self.artists).remaining();
        for pair in it: self.artists.iter()
            invariant
                it.seq() == all,
                all == spec_hash_map_iter(&self.artists).remaining(),
                entries.len() == it.index(),
                forall|j: int|
                    0 <= j < it.index() ==> (#[trigger] entries[j]).0 == *all[j].0
                        && entries[j].1@ == (*all[j].1)@,
        {
            let (id, artist) = pair;
            entries.push((*id, artist.clone()));
        }
        proof {
            assert(artist_map(self.artists@).dom() =~= self.artists@.dom());
            assert forall|i: int, j: int| 0 <= i < j < entries.len() implies (
            #[trigger] entries[i]).0 != (#[trigger] entries[j]).0 by {
                if entries[i].0 == entries[j].0 {
                    assert(self.artists@.contains_key(*all[i].0));
                    assert(self.artists@.contains_key(*all[j].0));
                    assert(all[i] == all[j]);
                }
            }
            assert forall|k: Id| #[trigger] self@.artists.contains_key(k) implies exists|i: int|
                0 <= i < entries.len() && (#[trigger] entries[i]).0 == k by {
                assert(self.artists@.contains_key(k));
                let i = choose|i: int| 0 <= i < all.len() && all[i] == (&k, &self.artists@[k]);
                assert(entries[i].0 == k);
            }
        }
        entries
    }

    /// How many songs the catalog holds.
    pub fn song_count(&self) -> (count: usize)
        ensures
            count == self@.songs.len(),
    {
        assert(song_map(self.songs@).dom() =~= self.songs@.dom());
        self.songs.len()
    }

    /// How many albums the catalog holds.
    pub fn album_count(&self) -> (count: usize)
        ensures
            count == self@.albums.len(),
    {
        assert(album_map(self.albums@).dom() =~= self.albums@.dom());
        self.albums.len()
    }

    /// How many artists the catalog holds.
    pub fn artist_count(&self) -> (count: usize)
        ensures
            count == self@.artists.len(),
    {
        assert(artist_map(self.artists@).dom() =~= self.artists@.dom());
        self.artists.len()
    }

    /// Puts `other` in the place of this catalog.
    pub fn replace(&mut self, other: Library)
        ensures
            final(self)@ == other@,
            final(self)@.wf(),
    {
        proof {
            use_type_invariant(&other);
        }
        *self = other;
    }

    /// Empties the catalog.
    pub fn clear(&mut self)
        ensures
            final(self)@ == LibraryView::empty(),
            final(self)@.wf(),
    {
        *self = Library::new();
    }
}

} // verus!
