use crate::ident::{fresh_id, is_random_id, Id};
use crate::time::TimeSpan;
use std::borrow::Cow;
use vstd::prelude::*;

verus! {

/// A performer or a band.
#[derive(Debug)]
pub struct Artist {
    pub id: Id,
    pub name: String,
}

/// What an `Artist` holds, as plain mathematical values.
pub struct ArtistView {
    pub id: Id,
    pub name: Seq<char>,
}

impl View for Artist {
    type V = ArtistView;

    open spec fn view(&self) -> ArtistView {
        ArtistView { id: self.id, name: self.name@ }
    }
}

impl Clone for Artist {
    fn clone(&self) -> (copy: Self)
        ensures
            copy@ == self@,
    {
        Artist { id: self.id, name: self.name.clone() }
    }
}

impl Artist {
    /// An artist called `name` under a newly drawn identifier.
    pub fn new(name: String) -> (artist: Artist)
        ensures
            artist.name@ == name@,
            is_random_id(artist.id),
    {
        Artist { id: fresh_id(), name }
    }
}

/// A record an artist released.
#[derive(Debug)]
pub struct Album {
    pub id: Id,
    pub title: String,
    pub artist: Artist,
}

/// What an `Album` holds, as plain mathematical values.
pub struct AlbumView {
    pub id: Id,
    pub title: Seq<char>,
    pub artist: ArtistView,
}

impl View for Album {
    type V = AlbumView;

    open spec fn view(&self) -> AlbumView {
        AlbumView { id: self.id, title: self.title@, artist: self.artist@ }
    }
}

impl Clone for Album {
    fn clone(&self) -> (copy: Self)
        ensures
            copy@ == self@,
    {
        Album { id: self.id, title: self.title.clone(), artist: self.artist.clone() }
    }
}

impl Album {
    /// The album called `title` by `artist`, under a newly drawn identifier;
    /// no album where there is no title.
    pub fn new(title: Option<String>, artist: Artist) -> (album: Option<Album>)
        ensures
            album.is_some() == title.is_some(),
            album matches Some(a) ==> a.title@ == title.unwrap()@ && a.artist@ == artist@
                && is_random_id(a.id),
    {
        match title {
            Some(title) => Some(Album { id: fresh_id(), title, artist }),
            None => None,
        }
    }

    /// The title as an owned string, where a tag gave one.
    pub fn try_to_get_title(maybe_album: Option<Cow<str>>) -> (title: Option<String>)
        ensures
            title.is_some() == maybe_album.is_some(),
            title matches Some(t) ==> t@ == maybe_album.unwrap()@,
    {
        match maybe_album {
            Some(title) => Some(owned_text(title)),
            None => None,
        }
    }
}

/// The text of `text` as an owned string.
pub fn owned_text(text: Cow<str>) -> (owned: String)
    ensures
        owned@ == text@,
{
    match text {
        Cow::Borrowed(borrowed) => borrowed.to_owned(),
        Cow::Owned(owned) => owned,
    }
}

/// The text that stands for a field no tag gave.
pub open spec fn unknown_text() -> Seq<char> {
    "Unknown"@
}

/// The text of a tag field, and `unknown_text` where the tag did not give it.
pub open spec fn text_or_unknown(field: Option<Seq<char>>) -> Seq<char> {
    match field {
        Some(text) => text,
        None => unknown_text(),
    }
}

/// A tag field that holds text: the field itself unless it is empty, and
/// `None` where it is empty or absent. An artist's name and an album's title
/// are never empty, so an empty one counts as not given.
pub open spec fn present(field: Option<Seq<char>>) -> Option<Seq<char>> {
    match field {
        Some(text) => if text.len() > 0 {
            Some(text)
        } else {
            None
        },
        None => None,
    }
}

/// The year a song is filed under: the tag's year reduced to 16 bits, and 0
/// where the tag gave none.
pub open spec fn year_or_zero(year: Option<u32>) -> u16 {
    match year {
        Some(y) => (y % 0x1_0000) as u16,
        None => 0,
    }
}

/// The fields a tag reader found in one file; `None` for each field the tag
/// did not hold.
#[derive(Debug)]
pub struct TagRecord {
    pub title: Option<String>,
    pub artist: Option<String>,
    pub album: Option<String>,
    pub year: Option<u32>,
    pub genre: Option<String>,
}

/// What a `TagRecord` holds, as plain mathematical values.
pub struct TagRecordView {
    pub title: Option<Seq<char>>,
    pub artist: Option<Seq<char>>,
    pub album: Option<Seq<char>>,
    pub year: Option<u32>,
    pub genre: Option<Seq<char>>,
}

/// The text of an optional string.
pub open spec fn text_of(field: Option<String>) -> Option<Seq<char>> {
    match field {
        Some(text) => Some(text@),
        None => None,
    }
}

impl View for TagRecord {
    type V = TagRecordView;

    open spec fn view(&self) -> TagRecordView {
        TagRecordView {
            title: text_of(self.title),
            artist: text_of(self.artist),
            album: text_of(self.album),
            year: self.year,
            genre: text_of(self.genre),
        }
    }
}

impl TagRecordView {
    /// The record of a file that holds no tag at all.
    pub open spec fn empty() -> TagRecordView {
        TagRecordView { title: None, artist: None, album: None, year: None, genre: None }
    }
}

impl TagRecord {
    /// The record of a file that holds no tag at all.
    pub fn empty() -> (record: TagRecord)
        ensures
            record@ == TagRecordView::empty(),
    {
        TagRecord { title: None, artist: None, album: None, year: None, genre: None }
    }
}

/// One audio file in the catalog.
#[derive(Debug)]
pub struct Song {
    pub title: String,
    pub artists: Vec<Artist>,
    pub duration: TimeSpan,
    pub album: Option<Album>,
    pub file_path: String,
    pub year: u16,
    pub genre: String,
}

/// What a `Song` holds, as plain mathematical values.
pub struct SongView {
    pub title: Seq<char>,
    pub artists: Seq<ArtistView>,
    pub duration: TimeSpan,
    pub album: Option<AlbumView>,
    pub file_path: Seq<char>,
    pub year: u16,
    pub genre: Seq<char>,
}

/// The views of a list of artists, in the same order.
pub open spec fn artist_views(artists: Seq<Artist>) -> Seq<ArtistView> {
    Seq::new(artists.len(), |i: int| artists[i]@)
}

/// The view of an optional album.
pub open spec fn album_view(album: Option<Album>) -> Option<AlbumView> {
    match album {
        Some(a) => Some(a@),
        None => None,
    }
}

impl View for Song {
    type V = SongView;

    open spec fn view(&self) -> SongView {
        SongView {
            title: self.title@,
            artists: artist_views(self.artists@),
            duration: self.duration,
            album: album_view(self.album),
            file_path: self.file_path@,
            year: self.year,
            genre: self.genre@,
        }
    }
}

/// A copy of a list of artists.
fn clone_artists(artists: &Vec<Artist>) -> (copy: Vec<Artist>)
    ensures
        artist_views(copy@) == artist_views(artists@),
{
    let mut copy: Vec<Artist> = Vec::new();
    let mut i: usize = 0;
    while i < artists.len()
        invariant
            i <= artists.len(),
            copy.len() == i,
            forall|j: int| 0 <= j < i ==> copy[j]@ == artists[j]@,
        decreases artists.len() - i,
    {
        copy.push(artists[i].clone());
        i += 1;
    }
    assert(artist_views(copy@) =~= artist_views(artists@));
    copy
}

impl Clone for Song {
    fn clone(&self) -> (copy: Self)
        ensures
            copy@ == self@,
    {
        let album = match &self.album {
            Some(a) => Some(a.clone()),
            None => None,
        };
        Song {
            title: self.title.clone(),
            artists: clone_artists(&self.artists),
            duration: self.duration,
            album,
            file_path: self.file_path.clone(),
            year: self.year,
            genre: self.genre.clone(),
        }
    }
}

impl SongView {
    /// The song that the file at `file_path` becomes, given what its tag
    /// holds, how long it plays, and the identifiers its artist and its album
    /// are filed under.
    ///
    /// Title and genre read `unknown_text` where the tag lacks them. There is
    /// one artist, called `unknown_text` where the tag names none. The album
    /// is present exactly where the tag names one, and is by that artist.
    pub open spec fn from_tags(
        file_path: Seq<char>,
        tags: TagRecordView,
        duration: TimeSpan,
        artist_id: Id,
        album_id: Id,
    ) -> SongView {
        let artist = ArtistView { id: artist_id, name: text_or_unknown(present(tags.artist)) };
        SongView {
            title: text_or_unknown(tags.title),
            artists: seq![artist],
            duration,
            album: match present(tags.album) {
                Some(title) => Some(AlbumView { id: album_id, title, artist }),
                None => None,
            },
            file_path,
            year: year_or_zero(tags.year),
            genre: text_or_unknown(tags.genre),
        }
    }

    /// A song made from tags has exactly one artist, whose name is not
    /// empty, and its album, if it has one, has a title that is not empty
    /// and is by that artist.
    pub proof fn lemma_from_tags_names(
        file_path: Seq<char>,
        tags: TagRecordView,
        duration: TimeSpan,
        artist_id: Id,
        album_id: Id,
    )
        ensures
            ({
                let song = Self::from_tags(file_path, tags, duration, artist_id, album_id);
                &&& song.artists.len() == 1
                &&& song.artists[0].name.len() > 0
                &&& song.album matches Some(album) ==> album.title.len() > 0 && album.artist
                    == song.artists[0]
            }),
    {
        reveal_strlit("Unknown");
    }

    /// A song made from a file without any tag reads `unknown_text` for
    /// title, artist and genre, has year 0 and no album, and plays as long as
    /// the file does.
    pub proof fn lemma_from_no_tags(
        file_path: Seq<char>,
        duration: TimeSpan,
        artist_id: Id,
        album_id: Id,
    )
        ensures
            ({
                let song = Self::from_tags(
                    file_path,
                    TagRecordView::empty(),
                    duration,
                    artist_id,
                    album_id,
                );
                &&& song.title == unknown_text()
                &&& song.genre == unknown_text()
                &&& song.artists == seq![ArtistView { id: artist_id, name: unknown_text() }]
                &&& song.year == 0
                &&& song.album is None
                &&& song.duration == duration
                &&& song.file_path == file_path
            }),
    {
    }

    /// The identifier of the album, and 0 where there is none.
    pub open spec fn album_id(self) -> Id {
        match self.album {
            Some(a) => a.id,
            None => 0,
        }
    }

    /// The identifier of the first artist, and 0 where there is none.
    pub open spec fn artist_id(self) -> Id {
        if self.artists.len() > 0 {
            self.artists[0].id
        } else {
            0
        }
    }

    /// Whether the song is what `from_tags` makes of the file at `file_path`
    /// for some content of its tag, with the song's own duration and
    /// identifiers.
    pub open spec fn made_from_file(self, file_path: Seq<char>) -> bool {
        exists|tags: TagRecordView|
            self == #[trigger] Self::from_tags(
                file_path,
                tags,
                self.duration,
                self.artist_id(),
                self.album_id(),
            )
    }

    /// A song made from a file keeps the file's path and has exactly one
    /// artist, whose name is not empty; its album, if it has one, has a
    /// title that is not empty and is by that artist.
    pub proof fn lemma_made_from_file(self, file_path: Seq<char>)
        requires
            self.made_from_file(file_path),
        ensures
            self.file_path == file_path,
            self.artists.len() == 1,
            self.artists[0].name.len() > 0,
            self.album matches Some(album) ==> album.title.len() > 0 && album.artist
                == self.artists[0],
    {
        let tags = choose|tags: TagRecordView|
            self == #[trigger] Self::from_tags(
                file_path,
                tags,
                self.duration,
                self.artist_id(),
                self.album_id(),
            );
        Self::lemma_from_tags_names(
            file_path,
            tags,
            self.duration,
            self.artist_id(),
            self.album_id(),
        );
    }
}

/// The string of a tag field, and "Unknown" where the tag did not give it.
fn string_or_unknown(field: Option<String>) -> (text: String)
    ensures
        text@ == text_or_unknown(text_of(field)),
{
    match field {
        Some(text) => text,
        None => "Unknown".to_owned(),
    }
}

/// The field itself unless it is empty; `None` where it is empty or absent.
fn present_string(field: Option<String>) -> (kept: Option<String>)
    ensures
        text_of(kept) == present(text_of(field)),
{
    match field {
        Some(text) => if text.as_str().is_empty() {
            None
        } else {
            Some(text)
        },
        None => None,
    }
}

impl Song {
    /// The song that the file at `file_path` becomes, given what its tag holds
    /// and how long it plays. A file without any tag is described by
    /// `TagRecord::empty`. The artist and the album get newly drawn
    /// identifiers; everything else is fixed by the arguments.
    pub fn from_tags(file_path: String, tags: TagRecord, duration: TimeSpan) -> (song: Song)
        ensures
            song@ == SongView::from_tags(
                file_path@,
                tags@,
                duration,
                song@.artist_id(),
                song@.album_id(),
            ),
            song@.made_from_file(file_path@),
            is_random_id(song@.artist_id()),
            song@.album is Some ==> is_random_id(song@.album_id()),
    {
        let TagRecord { title, artist, album, year, genre } = tags;
        let artist = Artist::new(string_or_unknown(present_string(artist)));
        let album = Album::new(present_string(album), artist.clone());
        let year: u16 = match year {
            Some(y) => (y % 0x1_0000) as u16,
            None => 0,
        };
        let song = Song {
            title: string_or_unknown(title),
            artists: vec![artist],
            duration,
            album,
            file_path,
            year,
            genre: string_or_unknown(genre),
        };
        assert(song@.artists =~= seq![song.artists[0]@]);
        song
    }
}

} // verus!
