use jukebox::song::{owned_text, Album, Artist, Song, TagRecord};
use jukebox::time::TimeSpan;
use lofty::file::{FileType, TaggedFile};
use lofty::properties::FileProperties;
use lofty::tag::{Accessor, Tag, TagType};
use std::borrow::Cow;
use std::time::Duration;

fn parsed_file(file_type: FileType, duration: Duration, tags: Vec<Tag>) -> TaggedFile {
    let properties = FileProperties::new(duration, None, None, None, None, None, None);
    TaggedFile::new(file_type, properties, tags)
}

fn full_record() -> TagRecord {
    TagRecord {
        title: Some("Hello".to_string()),
        artist: Some("Ada".to_string()),
        album: Some("Demo".to_string()),
        year: Some(2020),
        genre: Some("Rock".to_string()),
    }
}

#[test]
fn artist_new_keeps_the_name() {
    let artist = Artist::new("Ada".to_string());
    assert_eq!(artist.name, "Ada");
}

#[test]
fn artist_ids_are_random_version_four_identifiers() {
    let first = Artist::new("Ada".to_string());
    let second = Artist::new("Ada".to_string());
    assert_ne!(first.id, second.id);
    assert_eq!((first.id >> 76) & 0xf, 4);
    assert_eq!((first.id >> 62) & 0x3, 2);
    assert_eq!((second.id >> 76) & 0xf, 4);
    assert_eq!((second.id >> 62) & 0x3, 2);
}

#[test]
fn artist_clone_keeps_id_and_name() {
    let artist = Artist { id: 7, name: "Ada".to_string() };
    let copy = artist.clone();
    assert_eq!(copy.id, 7);
    assert_eq!(copy.name, "Ada");
}

#[test]
fn album_new_with_title() {
    let artist = Artist { id: 7, name: "Ada".to_string() };
    let album = Album::new(Some("Demo".to_string()), artist).unwrap();
    assert_eq!(album.title, "Demo");
    assert_eq!(album.artist.id, 7);
    assert_eq!(album.artist.name, "Ada");
    assert_eq!((album.id >> 76) & 0xf, 4);
}

#[test]
fn album_new_without_title_is_none() {
    let artist = Artist { id: 7, name: "Ada".to_string() };
    assert!(Album::new(None, artist).is_none());
}

#[test]
fn album_clone_keeps_everything() {
    let album = Album {
        id: 9,
        title: "Demo".to_string(),
        artist: Artist { id: 7, name: "Ada".to_string() },
    };
    let copy = album.clone();
    assert_eq!(copy.id, 9);
    assert_eq!(copy.title, "Demo");
    assert_eq!(copy.artist.id, 7);
    assert_eq!(copy.artist.name, "Ada");
}

#[test]
fn try_to_get_title_owns_the_text() {
    assert_eq!(
        Album::try_to_get_title(Some(Cow::Borrowed("Demo"))),
        Some("Demo".to_string())
    );
    assert_eq!(
        Album::try_to_get_title(Some(Cow::Owned("Other".to_string()))),
        Some("Other".to_string())
    );
    assert_eq!(Album::try_to_get_title(None), None);
}

#[test]
fn owned_text_of_borrowed_and_owned() {
    assert_eq!(owned_text(Cow::Borrowed("abc")), "abc");
    assert_eq!(owned_text(Cow::Owned("xyz".to_string())), "xyz");
}

#[test]
fn song_from_full_tags() {
    let song = Song::from_tags(
        "music/song.flac".to_string(),
        full_record(),
        TimeSpan::from_secs(123),
    );
    assert_eq!(song.title, "Hello");
    assert_eq!(song.artists.len(), 1);
    assert_eq!(song.artists[0].name, "Ada");
    assert_eq!(song.duration, TimeSpan::new(123, 0));
    assert_eq!(song.file_path, "music/song.flac");
    assert_eq!(song.year, 2020);
    assert_eq!(song.genre, "Rock");
    let album = song.album.as_ref().unwrap();
    assert_eq!(album.title, "Demo");
    assert_eq!(album.artist.id, song.artists[0].id);
    assert_eq!(album.artist.name, "Ada");
}

#[test]
fn song_without_tags_is_unknown() {
    let song = Song::from_tags(
        "music/bare.wav".to_string(),
        TagRecord::empty(),
        TimeSpan::new(7, 500),
    );
    assert_eq!(song.title, "Unknown");
    assert_eq!(song.genre, "Unknown");
    assert_eq!(song.artists.len(), 1);
    assert_eq!(song.artists[0].name, "Unknown");
    assert_eq!(song.year, 0);
    assert!(song.album.is_none());
    assert_eq!(song.duration, TimeSpan::new(7, 500));
    assert_eq!(song.file_path, "music/bare.wav");
}

#[test]
fn song_with_some_tags_defaults_the_rest() {
    let record = TagRecord {
        title: Some("Only Title".to_string()),
        artist: None,
        album: None,
        year: None,
        genre: Some("Jazz".to_string()),
    };
    let song = Song::from_tags("x.ogg".to_string(), record, TimeSpan::zero());
    assert_eq!(song.title, "Only Title");
    assert_eq!(song.artists[0].name, "Unknown");
    assert!(song.album.is_none());
    assert_eq!(song.year, 0);
    assert_eq!(song.genre, "Jazz");
}

#[test]
fn empty_artist_and_album_count_as_not_given() {
    let record = TagRecord {
        title: Some(String::new()),
        artist: Some(String::new()),
        album: Some(String::new()),
        year: Some(1999),
        genre: Some(String::new()),
    };
    let song = Song::from_tags("x.ogg".to_string(), record, TimeSpan::zero());
    assert_eq!(song.artists[0].name, "Unknown");
    assert!(song.album.is_none());
    assert_eq!(song.title, "");
    assert_eq!(song.genre, "");
    assert_eq!(song.year, 1999);
}

#[test]
fn year_is_reduced_to_sixteen_bits() {
    let mut record = TagRecord::empty();
    record.year = Some(65_535);
    let song = Song::from_tags("x.ogg".to_string(), record, TimeSpan::zero());
    assert_eq!(song.year, 65_535);
    let mut record = TagRecord::empty();
    record.year = Some(65_536);
    let song = Song::from_tags("x.ogg".to_string(), record, TimeSpan::zero());
    assert_eq!(song.year, 0);
    let mut record = TagRecord::empty();
    record.year = Some(70_000);
    let song = Song::from_tags("x.ogg".to_string(), record, TimeSpan::zero());
    assert_eq!(song.year, 4_464);
}

#[test]
fn tag_record_empty_has_no_field() {
    let record = TagRecord::empty();
    assert!(record.title.is_none());
    assert!(record.artist.is_none());
    assert!(record.album.is_none());
    assert!(record.year.is_none());
    assert!(record.genre.is_none());
}

#[test]
fn song_clone_keeps_every_field() {
    let song = Song::from_tags("music/song.flac".to_string(), full_record(), TimeSpan::new(1, 2));
    let copy = song.clone();
    assert_eq!(copy.title, song.title);
    assert_eq!(copy.artists.len(), 1);
    assert_eq!(copy.artists[0].id, song.artists[0].id);
    assert_eq!(copy.artists[0].name, "Ada");
    assert_eq!(copy.duration, song.duration);
    assert_eq!(copy.album.as_ref().unwrap().id, song.album.as_ref().unwrap().id);
    assert_eq!(copy.album.as_ref().unwrap().title, "Demo");
    assert_eq!(copy.file_path, "music/song.flac");
    assert_eq!(copy.year, 2020);
    assert_eq!(copy.genre, "Rock");
}

#[test]
fn song_new_prefers_the_primary_tag_over_the_first() {
    let mut first = Tag::new(TagType::Id3v2);
    first.set_title("From the first tag".to_string());
    let mut primary = Tag::new(TagType::VorbisComments);
    primary.set_title("From the primary tag".to_string());
    let file = parsed_file(FileType::Flac, Duration::from_secs(1), vec![first, primary]);
    let song = Song::new("a.flac".to_string(), &file);
    assert_eq!(song.title, "From the primary tag");
}

#[test]
fn song_new_falls_back_to_the_first_tag() {
    let mut other = Tag::new(TagType::Id3v2);
    other.set_title("Fallback".to_string());
    other.set_artist("Bo".to_string());
    let file = parsed_file(FileType::Flac, Duration::from_secs(1), vec![other]);
    let song = Song::new("a.flac".to_string(), &file);
    assert_eq!(song.title, "Fallback");
    assert_eq!(song.artists[0].name, "Bo");
    assert!(song.album.is_none());
    assert_eq!(song.year, 0);
    assert_eq!(song.genre, "Unknown");
}

#[test]
fn song_new_draws_identifiers_for_artist_and_album() {
    let mut tag = Tag::new(TagType::VorbisComments);
    tag.set_artist("Ada".to_string());
    tag.set_album("Demo".to_string());
    let file = parsed_file(FileType::Flac, Duration::from_secs(1), vec![tag]);
    let song = Song::new("a.flac".to_string(), &file);
    let artist_id = song.artists[0].id;
    let album_id = song.album.as_ref().unwrap().id;
    assert_eq!((artist_id >> 76) & 0xf, 4);
    assert_eq!((artist_id >> 62) & 0x3, 2);
    assert_eq!((album_id >> 76) & 0xf, 4);
    assert_eq!((album_id >> 62) & 0x3, 2);
    assert_ne!(artist_id, album_id);
}

#[test]
fn song_new_from_a_tagged_file() {
    let mut tag = Tag::new(TagType::VorbisComments);
    tag.set_title("Hello".to_string());
    tag.set_artist("Ada".to_string());
    tag.set_album("Demo".to_string());
    tag.set_year(2020);
    tag.set_genre("Rock".to_string());
    let file = parsed_file(FileType::Flac, Duration::from_secs(123), vec![tag]);
    let song = Song::new("song.flac".to_string(), &file);
    assert_eq!(song.title, "Hello");
    assert_eq!(song.artists.len(), 1);
    assert_eq!(song.artists[0].name, "Ada");
    assert_eq!(song.album.as_ref().unwrap().title, "Demo");
    assert_eq!(song.album.as_ref().unwrap().artist.id, song.artists[0].id);
    assert_eq!(song.year, 2020);
    assert_eq!(song.genre, "Rock");
    assert_eq!(song.duration, TimeSpan::new(123, 0));
    assert_eq!(song.file_path, "song.flac");
}

#[test]
fn song_new_from_a_file_without_tags() {
    let file = parsed_file(FileType::Mpeg, Duration::new(3, 250_000_000), Vec::new());
    let song = Song::new("bare.mp3".to_string(), &file);
    assert_eq!(song.title, "Unknown");
    assert_eq!(song.artists.len(), 1);
    assert_eq!(song.artists[0].name, "Unknown");
    assert_eq!(song.genre, "Unknown");
    assert_eq!(song.year, 0);
    assert!(song.album.is_none());
    assert_eq!(song.duration, TimeSpan::new(3, 250_000_000));
    assert_eq!(song.file_path, "bare.mp3");
}

#[test]
fn year_from_a_tag_has_four_digits() {
    let mut tag = Tag::new(TagType::VorbisComments);
    tag.set_year(12345);
    let file = parsed_file(FileType::Flac, Duration::from_secs(1), vec![tag]);
    let song = Song::new("a.flac".to_string(), &file);
    assert_eq!(song.year, 1234);
    let mut tag = Tag::new(TagType::VorbisComments);
    tag.set_year(198);
    let file = parsed_file(FileType::Flac, Duration::from_secs(1), vec![tag]);
    let song = Song::new("a.flac".to_string(), &file);
    assert_eq!(song.year, 0);
}

#[test]
fn song_new_reads_the_first_tag_of_a_custom_format() {
    let mut first = Tag::new(TagType::Id3v2);
    first.set_title("First".to_string());
    let mut second = Tag::new(TagType::VorbisComments);
    second.set_title("Second".to_string());
    let file = parsed_file(
        FileType::Custom("a format nobody registered"),
        Duration::from_secs(4),
        vec![first, second],
    );
    let song = Song::new("a.wav".to_string(), &file);
    assert_eq!(song.title, "First");
    assert_eq!(song.duration, TimeSpan::new(4, 0));
}

#[test]
fn song_new_of_a_custom_format_without_tags() {
    let file = parsed_file(
        FileType::Custom("a format nobody registered"),
        Duration::new(2, 999_999_999),
        Vec::new(),
    );
    let song = Song::new("a.wav".to_string(), &file);
    assert_eq!(song.title, "Unknown");
    assert_eq!(song.artists[0].name, "Unknown");
    assert!(song.album.is_none());
    assert_eq!(song.duration, TimeSpan::new(2, 999_999_999));
}
