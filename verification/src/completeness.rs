//! The rule that decides whether a tag is fit for the catalogue.
//!
//! Artist, title, genre and year all have to be there. A genre with a
//! parenthesis in it is taken for a leftover of the numeric genre codes, as
//! in `(12)Rock`, and a year up to 1800 for a date that was never set.

use crate::basic_metadata::YEAR_FLOOR;
use crate::tag::{Field, TagView};
use crate::text::{contains_char, number_or_zero, or_text, or_zero, text_of, text_or};
use vstd::prelude::*;

verus! {

/// A genre that is not empty and holds no parenthesis.
pub open spec fn plain_genre(genre: Seq<char>) -> bool {
    &&& genre.len() > 0
    &&& !genre.contains('(')
    &&& !genre.contains(')')
}

/// Whether the four fields that matter make a complete tag. A missing text
/// counts as empty, a missing year as zero.
pub open spec fn complete_fields(
    artist: Option<Seq<char>>,
    title: Option<Seq<char>>,
    genre: Option<Seq<char>>,
    year: Option<usize>,
) -> bool {
    &&& or_text(artist, Seq::empty()).len() > 0
    &&& or_text(title, Seq::empty()).len() > 0
    &&& plain_genre(or_text(genre, Seq::empty()))
    &&& or_zero(year) > YEAR_FLOOR
}

/// Decides whether the four fields that matter make a complete tag.
pub fn is_complete(
    artist: Option<&str>,
    title: Option<&str>,
    genre: Option<&str>,
    year: Option<usize>,
) -> (r: bool)
    ensures
        r == complete_fields(text_of(artist), text_of(title), text_of(genre), year),
{
    proof {
        reveal_strlit("");
    }
    let artist = text_or(artist, "");
    let title = text_or(title, "");
    let genre = text_or(genre, "");
    let year = number_or_zero(year);
    !artist.is_empty() && !title.is_empty() && !genre.is_empty() && !(contains_char(genre, '(')
        || contains_char(genre, ')')) && year > YEAR_FLOOR as usize
}

impl TagView {
    /// Whether the tag is complete.
    pub open spec fn complete(self) -> bool {
        complete_fields(
            self.text(Field::Artist),
            self.text(Field::Title),
            self.text(Field::Genre),
            self.year(),
        )
    }
}

/// A tag without artist and without title is incomplete, whatever else it
/// holds.
pub proof fn lemma_incomplete_without_artist_and_title(tag: TagView)
    requires
        or_text(tag.text(Field::Artist), Seq::empty()).len() == 0,
        or_text(tag.text(Field::Title), Seq::empty()).len() == 0,
    ensures
        !tag.complete(),
{
}

/// A tag whose genre holds a parenthesis is incomplete, whatever else it
/// holds.
pub proof fn lemma_incomplete_with_parenthesis(tag: TagView, genre: Seq<char>)
    requires
        tag.text(Field::Genre) == Some(genre),
        genre.contains('(') || genre.contains(')'),
    ensures
        !tag.complete(),
{
}

/// A tag whose year is missing or not after 1800 is incomplete, whatever else
/// it holds.
pub proof fn lemma_incomplete_with_old_year(tag: TagView)
    requires
        or_zero(tag.year()) <= 1800,
    ensures
        !tag.complete(),
{
}

/// The year 1801 is late enough: with it, a tag that has an artist, a title
/// and a plain genre is complete.
pub proof fn lemma_complete_from_1801(
    tag: TagView,
    artist: Seq<char>,
    title: Seq<char>,
    genre: Seq<char>,
)
    requires
        tag.text(Field::Artist) == Some(artist),
        tag.text(Field::Title) == Some(title),
        tag.text(Field::Genre) == Some(genre),
        artist.len() > 0,
        title.len() > 0,
        plain_genre(genre),
        tag.year() == Some(1801usize),
    ensures
        tag.complete(),
{
}

} // verus!
