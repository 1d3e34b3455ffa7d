//! The ID3 tag as this library sees it.
//!
//! The tag itself is an `id3::Tag`, which the verifier cannot look into. The
//! library reasons about it through its text frames ([`text_frames`]) and its
//! version ([`tag_version`]), gathered in a [`TagView`]. The functions at the
//! end of this module call the methods of `id3::Tag`; their contracts say what
//! each method does to the text frames. These contracts are not proved: they
//! are taken from the source of the `id3` crate.
//!
//! Every method that adds a frame gives it a random identifier. `id3` panics
//! there if the system has no randomness to give, which no argument decides
//! and no contract here can rule out.

use crate::text::{decimal, signed_decimal, text_of};
use vstd::prelude::*;

verus! {

/// `id3::Tag`, of which the verifier sees nothing but the name.
#[verifier::external_type_specification]
#[verifier::external_body]
pub struct ExTag(id3::Tag);

/// The frames of a tag that this library reads or writes.
pub enum Field {
    Title,
    Artist,
    AlbumArtist,
    Album,
    Genre,
    Year,
    Track,
    /// The recording time.
    Recorded,
    /// The release time.
    Released,
    /// The sort order of the performer, which `id3` drops whenever the album
    /// artist is set.
    PerformerSort,
}

/// The identifier under which a tag of the given version keeps a field.
///
/// Version 2 of the format has identifiers of three letters for the frames it
/// knows; the two time stamps and the sort order are always looked up under
/// their identifiers of four letters.
pub open spec fn frame_id(field: Field, version: u8) -> Seq<char> {
    match field {
        Field::Title => if version == 2 {
            "TT2"@
        } else {
            "TIT2"@
        },
        Field::Artist => if version == 2 {
            "TP1"@
        } else {
            "TPE1"@
        },
        Field::AlbumArtist => if version == 2 {
            "TP2"@
        } else {
            "TPE2"@
        },
        Field::Album => if version == 2 {
            "TAL"@
        } else {
            "TALB"@
        },
        Field::Genre => if version == 2 {
            "TCO"@
        } else {
            "TCON"@
        },
        Field::Year => if version == 2 {
            "TYE"@
        } else {
            "TYER"@
        },
        Field::Track => if version == 2 {
            "TRK"@
        } else {
            "TRCK"@
        },
        Field::Recorded => "TDRC"@,
        Field::Released => "TDRL"@,
        Field::PerformerSort => "TSOP"@,
    }
}

/// Two different fields never share an identifier.
pub proof fn lemma_frame_ids_differ(a: Field, b: Field, version: u8)
    requires
        a != b,
    ensures
        frame_id(a, version) != frame_id(b, version),
{
    reveal_strlit("TT2");
    reveal_strlit("TIT2");
    reveal_strlit("TP1");
    reveal_strlit("TPE1");
    reveal_strlit("TP2");
    reveal_strlit("TPE2");
    reveal_strlit("TAL");
    reveal_strlit("TALB");
    reveal_strlit("TCO");
    reveal_strlit("TCON");
    reveal_strlit("TYE");
    reveal_strlit("TYER");
    reveal_strlit("TRK");
    reveal_strlit("TRCK");
    reveal_strlit("TDRC");
    reveal_strlit("TDRL");
    reveal_strlit("TSOP");
    let x = frame_id(a, version);
    let y = frame_id(b, version);
    assert(x.len() != y.len() || x[1] != y[1] || x[2] != y[2] || x[3] != y[3]);
}

/// The text frames of a tag, by frame identifier.
///
/// An identifier is a key exactly when the first frame of the tag that carries
/// it holds text; it is mapped to that text.
pub uninterp spec fn text_frames(tag: id3::Tag) -> Map<Seq<char>, Seq<char>>;

/// The major version of the ID3v2 format a tag is kept in.
pub uninterp spec fn tag_version(tag: id3::Tag) -> u8;

/// The number that `id3::Tag::year` reads from the text of a year frame. It
/// has the width of `usize` on the target the library is built for.
pub uninterp spec fn year_of_text(text: Seq<char>) -> Option<usize>;

/// The total number of tracks that `id3::Tag::set_track` reads from the text
/// of a track frame before it overwrites the frame: the number behind the
/// first slash, if the text is a number, a slash and a number, each as
/// `str::parse::<u32>` reads it.
pub uninterp spec fn track_total(text: Seq<char>) -> Option<u32>;

/// The total number of tracks that a track frame gives, if there is such a
/// frame at all.
pub open spec fn total_of(previous: Option<Seq<char>>) -> Option<u32> {
    match previous {
        Some(text) => track_total(text),
        None => None,
    }
}

/// The text that `id3::Tag::set_track` writes for a track number, given the
/// text that the track frame held before: the number, and behind a slash the
/// total number of tracks, if the old text gave one.
pub open spec fn track_text(track: u32, previous: Option<Seq<char>>) -> Seq<char> {
    match total_of(previous) {
        Some(total) => decimal(track as nat) + seq!['/'] + decimal(total as nat),
        None => decimal(track as nat),
    }
}

/// Whether the text written for a track number gives the same total number
/// of tracks as the text it was written over.
pub open spec fn total_survives(track: u32, previous: Option<Seq<char>>) -> bool {
    track_total(track_text(track, previous)) == total_of(previous)
}

/// One part of a time stamp behind its separator, followed by the parts
/// after it. Nothing is written from the first missing part on.
pub open spec fn stamp_part(separator: char, part: Option<u8>, rest: Seq<char>) -> Seq<char> {
    match part {
        Some(number) => seq![separator] + decimal(number as nat) + rest,
        None => Seq::empty(),
    }
}

/// The text under `id`, if there is any.
pub open spec fn lookup(frames: Map<Seq<char>, Seq<char>>, id: Seq<char>) -> Option<Seq<char>> {
    if frames.contains_key(id) {
        Some(frames[id])
    } else {
        None
    }
}

/// A point in time, given part by part. A part that is `None` is not known.
pub struct DateStamp {
    pub year: Option<i32>,
    pub month: Option<u8>,
    pub day: Option<u8>,
    pub hour: Option<u8>,
    pub minute: Option<u8>,
    pub second: Option<u8>,
}

impl DateStamp {
    /// The text that stands for this time stamp in a frame, as
    /// `id3::Timestamp::to_string` writes it: year, month and day with hyphens
    /// between them, then `T` and hour, minute and second with colons between
    /// them. Every number is written in base ten without padding, and the
    /// text ends before the first part that is missing.
    pub open spec fn text(self) -> Seq<char> {
        match self.year {
            Some(year) => signed_decimal(year as int) + stamp_part(
                '-',
                self.month,
                stamp_part(
                    '-',
                    self.day,
                    stamp_part(
                        'T',
                        self.hour,
                        stamp_part(
                            ':',
                            self.minute,
                            stamp_part(':', self.second, Seq::empty()),
                        ),
                    ),
                ),
            ),
            None => Seq::empty(),
        }
    }

    /// The time stamp of a year, with nothing more precise than that.
    pub open spec fn of_year(year: i32) -> DateStamp {
        DateStamp {
            year: Some(year),
            month: None,
            day: None,
            hour: None,
            minute: None,
            second: None,
        }
    }

    /// The text of a year alone is the year in base ten.
    pub proof fn lemma_year_text(year: i32)
        ensures
            DateStamp::of_year(year).text() == signed_decimal(year as int),
    {
        assert(signed_decimal(year as int) + Seq::<char>::empty() =~= signed_decimal(year as int));
    }

    /// Makes the time stamp of a year, with nothing more precise than that.
    pub fn year_only(year: i32) -> (r: DateStamp)
        ensures
            r == DateStamp::of_year(year),
    {
        DateStamp { year: Some(year), month: None, day: None, hour: None, minute: None, second: None }
    }
}

/// What the library knows of a tag: its text frames and its version.
pub struct TagView {
    pub frames: Map<Seq<char>, Seq<char>>,
    pub version: u8,
}

impl TagView {
    /// The identifier of a field in this tag.
    pub open spec fn id(self, field: Field) -> Seq<char> {
        frame_id(field, self.version)
    }

    /// The text of a field, if the tag has it.
    pub open spec fn text(self, field: Field) -> Option<Seq<char>> {
        lookup(self.frames, self.id(field))
    }

    /// The year, if the tag has a year frame that holds a number.
    pub open spec fn year(self) -> Option<usize> {
        match self.text(Field::Year) {
            Some(text) => year_of_text(text),
            None => None,
        }
    }

    /// The tag with the text of one field replaced.
    pub open spec fn with_text(self, field: Field, text: Seq<char>) -> TagView {
        TagView { frames: self.frames.insert(self.id(field), text), version: self.version }
    }

    /// The tag without a field.
    pub open spec fn without(self, field: Field) -> TagView {
        TagView { frames: self.frames.remove(self.id(field)), version: self.version }
    }
}

/// The view of a tag.
pub open spec fn tag_view(tag: id3::Tag) -> TagView {
    TagView { frames: text_frames(tag), version: tag_version(tag) }
}

/// Replacing the text of one field leaves every other field as it was.
pub proof fn lemma_with_text(tag: TagView, field: Field, text: Seq<char>, other: Field)
    ensures
        tag.with_text(field, text).text(field) == Some(text),
        other != field ==> tag.with_text(field, text).text(other) == tag.text(other),
{
    if other != field {
        lemma_frame_ids_differ(other, field, tag.version);
    }
}

/// Dropping one field leaves every other field as it was.
pub proof fn lemma_without(tag: TagView, field: Field, other: Field)
    ensures
        tag.without(field).text(field) is None,
        other != field ==> tag.without(field).text(other) == tag.text(other),
{
    if other != field {
        lemma_frame_ids_differ(other, field, tag.version);
    }
}

/// `id3::Tag::title`: the text of the first title frame, or nothing if the tag
/// has no such frame or the frame holds no text.
#[verifier::external_body]
pub(crate) fn tag_title<'a>(tag: &'a id3::Tag) -> (r: Option<&'a str>)
    ensures
        text_of(r) == lookup(text_frames(*tag), frame_id(Field::Title, tag_version(*tag))),
{
    tag.title()
}

/// `id3::Tag::artist`: the text of the first artist frame, or nothing if the
/// tag has no such frame or the frame holds no text.
#[verifier::external_body]
pub(crate) fn tag_artist<'a>(tag: &'a id3::Tag) -> (r: Option<&'a str>)
    ensures
        text_of(r) == lookup(text_frames(*tag), frame_id(Field::Artist, tag_version(*tag))),
{
    tag.artist()
}

/// `id3::Tag::album`: the text of the first album frame, or nothing if the tag
/// has no such frame or the frame holds no text.
#[verifier::external_body]
pub(crate) fn tag_album<'a>(tag: &'a id3::Tag) -> (r: Option<&'a str>)
    ensures
        text_of(r) == lookup(text_frames(*tag), frame_id(Field::Album, tag_version(*tag))),
{
    tag.album()
}

/// `id3::Tag::genre`: the text of the first genre frame, or nothing if the tag
/// has no such frame or the frame holds no text.
#[verifier::external_body]
pub(crate) fn tag_genre<'a>(tag: &'a id3::Tag) -> (r: Option<&'a str>)
    ensures
        text_of(r) == lookup(text_frames(*tag), frame_id(Field::Genre, tag_version(*tag))),
{
    tag.genre()
}

/// `id3::Tag::year`: the number that the text of the first year frame stands
/// for, or nothing if the tag has no such frame, the frame holds no text, or
/// the text is no number. Which texts are numbers is left to `year_of_text`.
#[verifier::external_body]
pub(crate) fn tag_year(tag: &id3::Tag) -> (r: Option<usize>)
    ensures
        r == match lookup(text_frames(*tag), frame_id(Field::Year, tag_version(*tag))) {
            Some(text) => year_of_text(text),
            None => None,
        },
{
    tag.year()
}

/// `id3::Tag::set_album`: removes every album frame and adds one that holds
/// `album`. No other frame is touched.
#[verifier::external_body]
pub(crate) fn tag_set_album(tag: &mut id3::Tag, album: String)
    ensures
        text_frames(*final(tag)) == text_frames(*old(tag)).insert(
            frame_id(Field::Album, tag_version(*old(tag))),
            album@,
        ),
        tag_version(*final(tag)) == tag_version(*old(tag)),
{
    tag.set_album(album)
}

/// `id3::Tag::set_genre`: removes every genre frame and adds one that holds
/// `genre`. No other frame is touched.
#[verifier::external_body]
pub(crate) fn tag_set_genre(tag: &mut id3::Tag, genre: String)
    ensures
        text_frames(*final(tag)) == text_frames(*old(tag)).insert(
            frame_id(Field::Genre, tag_version(*old(tag))),
            genre@,
        ),
        tag_version(*final(tag)) == tag_version(*old(tag)),
{
    tag.set_genre(genre)
}

/// `id3::Tag::set_album_artist`: removes every `TSOP` frame and every album
/// artist frame, then adds an album artist frame that holds `album_artist`.
#[verifier::external_body]
pub(crate) fn tag_set_album_artist(tag: &mut id3::Tag, album_artist: String)
    ensures
        text_frames(*final(tag)) == text_frames(*old(tag)).remove(
            frame_id(Field::PerformerSort, tag_version(*old(tag))),
        ).insert(frame_id(Field::AlbumArtist, tag_version(*old(tag))), album_artist@),
        tag_version(*final(tag)) == tag_version(*old(tag)),
{
    tag.set_album_artist(album_artist)
}

/// `id3::Tag::set_date_recorded`: removes every `TDRC` frame and adds one that
/// holds what `id3::Timestamp::to_string` makes of the time stamp.
#[verifier::external_body]
pub(crate) fn tag_set_date_recorded(tag: &mut id3::Tag, stamp: &DateStamp)
    ensures
        text_frames(*final(tag)) == text_frames(*old(tag)).insert(
            frame_id(Field::Recorded, tag_version(*old(tag))),
            stamp.text(),
        ),
        tag_version(*final(tag)) == tag_version(*old(tag)),
{
    tag.set_date_recorded(
        id3::Timestamp {
            year: stamp.year,
            month: stamp.month,
            day: stamp.day,
            hour: stamp.hour,
            minute: stamp.minute,
            second: stamp.second,
        },
    )
}

/// `id3::Tag::set_date_released`: removes every `TDRL` frame and adds one that
/// holds what `id3::Timestamp::to_string` makes of the time stamp.
#[verifier::external_body]
pub(crate) fn tag_set_date_released(tag: &mut id3::Tag, stamp: &DateStamp)
    ensures
        text_frames(*final(tag)) == text_frames(*old(tag)).insert(
            frame_id(Field::Released, tag_version(*old(tag))),
            stamp.text(),
        ),
        tag_version(*final(tag)) == tag_version(*old(tag)),
{
    tag.set_date_released(
        id3::Timestamp {
            year: stamp.year,
            month: stamp.month,
            day: stamp.day,
            hour: stamp.hour,
            minute: stamp.minute,
            second: stamp.second,
        },
    )
}

/// `id3::Tag::set_track`: removes every track frame and adds one whose text is
/// the track number in base ten, followed by a slash and the total number of
/// tracks if the text of the old track frame gave one.
///
/// The last clause says that the total survives: read from the new text, it
/// is what was read from the old one. What `set_track` writes is either the
/// number alone, in which no total is found, or ends in the very total that
/// it had read.
#[verifier::external_body]
pub(crate) fn tag_set_track(tag: &mut id3::Tag, track: u32)
    ensures
        text_frames(*final(tag)) == text_frames(*old(tag)).insert(
            frame_id(Field::Track, tag_version(*old(tag))),
            track_text(
                track,
                lookup(text_frames(*old(tag)), frame_id(Field::Track, tag_version(*old(tag)))),
            ),
        ),
        tag_version(*final(tag)) == tag_version(*old(tag)),
        track_total(text_frames(*final(tag))[frame_id(Field::Track, tag_version(*old(tag)))])
            == total_of(
            lookup(text_frames(*old(tag)), frame_id(Field::Track, tag_version(*old(tag)))),
        ),
{
    tag.set_track(track)
}

} // verus!
