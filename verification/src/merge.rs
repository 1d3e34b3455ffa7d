//! What merging supplementary metadata into a tag does to the tag.
//!
//! The merge never asks whether the tag already has a value: it overwrites.
//! Artist and title are not among the values it brings, since a song is looked
//! up by them.

use crate::basic_metadata::BasicMetadata;
use crate::tag::{
    lemma_with_text, lemma_without, total_survives, track_text, DateStamp, Field, TagView,
};
use crate::text::signed_decimal;
use vstd::prelude::*;

verus! {

impl TagView {
    /// The tag after the values of `ext` have been merged in.
    ///
    /// Album, genre, track and both dates are overwritten, the dates with the
    /// year alone. The artist becomes the album artist as well, and the sort
    /// order of the performer is dropped. Nothing else changes.
    pub open spec fn merged(self, ext: BasicMetadata) -> TagView
        recommends
            self.text(Field::Artist) is Some,
    {
        let date = DateStamp::of_year(ext.date).text();
        let track = track_text(ext.track_number, self.text(Field::Track));
        let artist = self.text(Field::Artist).unwrap();
        self.with_text(Field::Album, ext.album@)
            .with_text(Field::Recorded, date)
            .with_text(Field::Released, date)
            .with_text(Field::Genre, ext.genre@)
            .with_text(Field::Track, track)
            .without(Field::PerformerSort)
            .with_text(Field::AlbumArtist, artist)
    }

    /// What a merge of `ext` into `self` leaves behind in `after`, field by
    /// field.
    pub open spec fn merged_into(self, ext: BasicMetadata, after: TagView) -> bool {
        &&& after.version == self.version
        &&& after.text(Field::Album) == Some(ext.album@)
        &&& after.text(Field::Genre) == Some(ext.genre@)
        &&& after.text(Field::Recorded) == Some(signed_decimal(ext.date as int))
        &&& after.text(Field::Released) == Some(signed_decimal(ext.date as int))
        &&& after.text(Field::Track) == Some(track_text(ext.track_number, self.text(Field::Track)))
        &&& after.text(Field::AlbumArtist) == self.text(Field::Artist)
        &&& after.text(Field::PerformerSort) is None
        &&& after.text(Field::Artist) == self.text(Field::Artist)
        &&& after.text(Field::Title) == self.text(Field::Title)
        &&& after.text(Field::Year) == self.text(Field::Year)
    }
}

/// A merge sets each supplementary field to the value it was given, makes the
/// artist the album artist, and leaves artist, title and year alone.
pub proof fn lemma_merged_fields(tag: TagView, ext: BasicMetadata)
    requires
        tag.text(Field::Artist) is Some,
    ensures
        tag.merged_into(ext, tag.merged(ext)),
{
    let date = DateStamp::of_year(ext.date).text();
    DateStamp::lemma_year_text(ext.date);
    let track = track_text(ext.track_number, tag.text(Field::Track));
    let artist = tag.text(Field::Artist).unwrap();
    let t1 = tag.with_text(Field::Album, ext.album@);
    let t2 = t1.with_text(Field::Recorded, date);
    let t3 = t2.with_text(Field::Released, date);
    let t4 = t3.with_text(Field::Genre, ext.genre@);
    let t5 = t4.with_text(Field::Track, track);
    let t6 = t5.without(Field::PerformerSort);
    assert(tag.merged(ext) == t6.with_text(Field::AlbumArtist, artist));
    assert forall|field: Field| #[trigger]
        tag.merged(ext).text(field) == (match field {
            Field::Album => Some(ext.album@),
            Field::Recorded => Some(date),
            Field::Released => Some(date),
            Field::Genre => Some(ext.genre@),
            Field::Track => Some(track),
            Field::PerformerSort => None,
            Field::AlbumArtist => Some(artist),
            _ => tag.text(field),
        }) by {
        lemma_with_text(tag, Field::Album, ext.album@, field);
        lemma_with_text(t1, Field::Recorded, date, field);
        lemma_with_text(t2, Field::Released, date, field);
        lemma_with_text(t3, Field::Genre, ext.genre@, field);
        lemma_with_text(t4, Field::Track, track, field);
        lemma_without(t5, Field::PerformerSort, field);
        lemma_with_text(t6, Field::AlbumArtist, artist, field);
    }
}

/// The last merge wins: merging `next` over a merge of `first` gives what
/// merging `next` alone gives, as long as the total number of tracks survives
/// the first merge.
pub proof fn lemma_last_merge_wins(tag: TagView, first: BasicMetadata, next: BasicMetadata)
    requires
        tag.text(Field::Artist) is Some,
        total_survives(first.track_number, tag.text(Field::Track)),
    ensures
        tag.merged(first).merged(next) == tag.merged(next),
{
    lemma_merged_fields(tag, first);
    assert(tag.merged(first).merged(next).frames =~= tag.merged(next).frames);
}

/// Merging the same values a second time changes nothing, as long as the
/// total number of tracks survives the first merge.
pub proof fn lemma_merge_twice(tag: TagView, ext: BasicMetadata)
    requires
        tag.text(Field::Artist) is Some,
        total_survives(ext.track_number, tag.text(Field::Track)),
    ensures
        tag.merged(ext).merged(ext) == tag.merged(ext),
{
    lemma_last_merge_wins(tag, ext, ext);
}

} // verus!
