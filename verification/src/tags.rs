use crate::ident::is_random_id;
use crate::song::{owned_text, text_of, Album, Song, SongView, TagRecord, TagRecordView};
use crate::time::TimeSpan;
use lofty::file::{AudioFile, FileType, TaggedFile, TaggedFileExt};
use lofty::properties::FileProperties;
use lofty::tag::{Accessor, Tag};
use std::borrow::Cow;
use vstd::prelude::*;

verus! {

/// An audio file as the tag reader parsed it: its tags and its audio
/// properties.
#[verifier::external_type_specification]
#[verifier::external_body]
pub struct ExTaggedFile(TaggedFile);

/// One tag of a parsed audio file.
#[verifier::external_type_specification]
#[verifier::external_body]
pub struct ExTag(Tag);

/// The audio properties of a parsed audio file.
#[verifier::external_type_specification]
#[verifier::external_body]
pub struct ExFileProperties(FileProperties);

/// A text field of a tag that the player reads.
pub enum TagField {
    Title,
    Artist,
    Album,
    Genre,
}

/// What a tag holds for the player: the text that it gives for each field,
/// and no entry for a field that it does not give. It stands for what the
/// accessors `title`, `artist`, `album` and `genre` of the tag return.
pub uninterp spec fn tag_texts(tag: Tag) -> Map<TagField, Seq<char>>;

/// The year that a tag gives, if it gives one: what its accessor `year`
/// returns.
pub uninterp spec fn tag_year_number(tag: Tag) -> Option<u32>;

/// What a parsed file holds for the player: the records of its tags, in the
/// order in which the file holds them.
pub uninterp spec fn file_tags(file: TaggedFile) -> Seq<TagRecordView>;

/// Whether the format of a parsed file is none of the built-in ones but a
/// custom one, whose preferred tag type is not a matter of the file but of
/// what the running program has registered for it.
pub uninterp spec fn has_custom_type(file: TaggedFile) -> bool;

/// The place, among the tags of a parsed file of a built-in format, of the
/// first tag of the type that the format prefers; `None` where the file holds
/// no such tag. It has no meaning for a file of a custom format.
pub uninterp spec fn primary_tag_place(file: TaggedFile) -> Option<int>;

/// How long the audio of a parsed file plays: the duration in its audio
/// properties.
pub uninterp spec fn file_duration(file: TaggedFile) -> TimeSpan;

/// The duration that audio properties hold.
pub uninterp spec fn properties_duration(properties: FileProperties) -> TimeSpan;

/// The text under `field`, where `texts` has one.
pub open spec fn field_text(texts: Map<TagField, Seq<char>>, field: TagField) -> Option<
    Seq<char>,
> {
    if texts.contains_key(field) {
        Some(texts[field])
    } else {
        None
    }
}

/// The text of an optional tag text.
pub open spec fn cow_text<'a>(field: Option<Cow<'a, str>>) -> Option<Seq<char>> {
    match field {
        Some(text) => Some(text@),
        None => None,
    }
}

/// The record of one tag: its four texts and its year.
pub open spec fn record_of(tag: Tag) -> TagRecordView {
    TagRecordView {
        title: field_text(tag_texts(tag), TagField::Title),
        artist: field_text(tag_texts(tag), TagField::Artist),
        album: field_text(tag_texts(tag), TagField::Album),
        year: tag_year_number(tag),
        genre: field_text(tag_texts(tag), TagField::Genre),
    }
}

/// The record of the first tag of a parsed file, and the record without any
/// field where the file holds no tag.
pub open spec fn first_record(file: TaggedFile) -> TagRecordView {
    if file_tags(file).len() > 0 {
        file_tags(file)[0]
    } else {
        TagRecordView::empty()
    }
}

/// The record that a parsed file is read as. For a file of a built-in format
/// it is that of the tag that the format prefers, else that of its first tag,
/// else the record without any field. For a file of a custom format no tag is
/// preferred: it is that of its first tag, else the record without any field.
pub open spec fn chosen_record(file: TaggedFile) -> TagRecordView {
    if has_custom_type(file) {
        first_record(file)
    } else {
        match primary_tag_place(file) {
            Some(place) => file_tags(file)[place],
            None => first_record(file),
        }
    }
}

/// Whether the file's format is a custom one.
///
/// Calls `TaggedFileExt::file_type` and tells the variant `FileType::Custom`
/// from the others. The contract claims that the result is
/// `has_custom_type` of the file.
#[verifier::external_body]
fn is_custom(file: &TaggedFile) -> (custom: bool)
    ensures
        custom == has_custom_type(*file),
{
    matches!(file.file_type(), FileType::Custom(_))
}

/// The tag that the file's format prefers, where the file holds one.
///
/// Calls `TaggedFileExt::primary_tag`, which looks among the file's tags for
/// the first of the type that the file's format prefers. For a custom format
/// that type is looked up among what the program has registered, and the call
/// panics where nothing is registered: such files are left out. The contract
/// claims, for a file of a built-in format, that a tag handed out is one of
/// the file's tags, at the place that `primary_tag_place` names, and that
/// none is handed out exactly where that place is `None`.
#[verifier::external_body]
fn primary_tag(file: &TaggedFile) -> (tag: Option<&Tag>)
    requires
        !has_custom_type(*file),
    ensures
        match tag {
            Some(found) => primary_tag_place(*file) matches Some(place) && 0 <= place < file_tags(
                *file,
            ).len() && file_tags(*file)[place] == record_of(*found),
            None => primary_tag_place(*file) is None,
        },
{
    file.primary_tag()
}

/// The first tag of the file, where it holds any.
///
/// Calls `TaggedFileExt::first_tag`, which hands out the first of the file's
/// tags. The contract claims that: the tag is the first of `file_tags`, and
/// there is none exactly where the file holds no tag.
#[verifier::external_body]
fn first_tag(file: &TaggedFile) -> (tag: Option<&Tag>)
    ensures
        match tag {
            Some(found) => file_tags(*file).len() > 0 && file_tags(*file)[0] == record_of(*found),
            None => file_tags(*file).len() == 0,
        },
{
    file.first_tag()
}

/// The track title in the tag. Calls `Accessor::title`; the contract claims
/// that the result is the text that `tag_texts` holds for the title.
#[verifier::external_body]
fn tag_title(tag: &Tag) -> (title: Option<Cow<'_, str>>)
    ensures
        cow_text(title) == field_text(tag_texts(*tag), TagField::Title),
{
    tag.title()
}

/// The track artist in the tag. Calls `Accessor::artist`; the contract claims
/// that the result is the text that `tag_texts` holds for the artist.
#[verifier::external_body]
fn tag_artist(tag: &Tag) -> (artist: Option<Cow<'_, str>>)
    ensures
        cow_text(artist) == field_text(tag_texts(*tag), TagField::Artist),
{
    tag.artist()
}

/// The album title in the tag. Calls `Accessor::album`; the contract claims
/// that the result is the text that `tag_texts` holds for the album.
#[verifier::external_body]
fn tag_album(tag: &Tag) -> (album: Option<Cow<'_, str>>)
    ensures
        cow_text(album) == field_text(tag_texts(*tag), TagField::Album),
{
    tag.album()
}

/// The genre in the tag. Calls `Accessor::genre`; the contract claims that
/// the result is the text that `tag_texts` holds for the genre.
#[verifier::external_body]
fn tag_genre(tag: &Tag) -> (genre: Option<Cow<'_, str>>)
    ensures
        cow_text(genre) == field_text(tag_texts(*tag), TagField::Genre),
{
    tag.genre()
}

/// The year in the tag. Calls `Accessor::year`, which reads a year of exactly
/// four digits from the tag's year or recording date. The contract claims
/// that the result is `tag_year_number` of the tag, and so below 10000.
#[verifier::external_body]
fn tag_year(tag: &Tag) -> (year: Option<u32>)
    ensures
        year == tag_year_number(*tag),
        year matches Some(number) ==> number <= 9999,
{
    tag.year()
}

/// The audio properties of the file. Calls `AudioFile::properties`, which
/// hands out the properties that the file holds; the contract claims that
/// their duration is `file_duration` of the file.
#[verifier::external_body]
fn file_properties(file: &TaggedFile) -> (properties: &FileProperties)
    ensures
        properties_duration(*properties) == file_duration(*file),
{
    file.properties()
}

/// How long the audio plays. Calls `FileProperties::duration` and hands the
/// span out as its whole seconds, by `Duration::as_secs`, and the
/// nanoseconds beyond them, by `Duration::subsec_nanos`. The contract claims
/// that the result is `properties_duration` of the properties, and that the
/// nanoseconds are less than a second.
#[verifier::external_body]
fn audio_duration(properties: &FileProperties) -> (duration: TimeSpan)
    ensures
        duration == properties_duration(*properties),
        duration.nanos < 1_000_000_000,
{
    let duration = properties.duration();
    TimeSpan { secs: duration.as_secs(), nanos: duration.subsec_nanos() }
}

/// An owned copy of an optional tag text.
fn owned_field(field: Option<Cow<'_, str>>) -> (owned: Option<String>)
    ensures
        text_of(owned) == cow_text(field),
{
    match field {
        Some(text) => Some(owned_text(text)),
        None => None,
    }
}

/// The fields that the file's tag holds: those of the tag its format prefers,
/// else those of its first tag, else none at all. No tag is preferred in a
/// file of a custom format.
fn read_tags(file: &TaggedFile) -> (record: TagRecord)
    ensures
        record@ == chosen_record(*file),
{
    let preferred = if is_custom(file) {
        None
    } else {
        primary_tag(file)
    };
    let tag = match preferred {
        Some(tag) => Some(tag),
        None => first_tag(file),
    };
    match tag {
        Some(tag) => TagRecord {
            title: owned_field(tag_title(tag)),
            artist: owned_field(tag_artist(tag)),
            album: Album::try_to_get_title(tag_album(tag)),
            year: tag_year(tag),
            genre: owned_field(tag_genre(tag)),
        },
        None => TagRecord::empty(),
    }
}

impl Song {
    /// The song that a parsed audio file becomes: `Song::from_tags` on the
    /// path, on the record that the file is read as, and on the playing time
    /// that the file's properties give. The artist and the album get newly
    /// drawn identifiers; everything else is fixed by the arguments.
    pub fn new(file_path: String, file: &TaggedFile) -> (song: Song)
        ensures
            song@ == SongView::from_tags(
                file_path@,
                chosen_record(*file),
                file_duration(*file),
                song@.artist_id(),
                song@.album_id(),
            ),
            song@.made_from_file(file_path@),
            song@.duration.nanos < 1_000_000_000,
            is_random_id(song@.artist_id()),
            song@.album is Some ==> is_random_id(song@.album_id()),
    {
        let tags = read_tags(file);
        let duration = audio_duration(file_properties(file));
        Song::from_tags(file_path, tags, duration)
    }
}

} // verus!
