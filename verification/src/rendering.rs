//! The text in which a song is shown to a reader.

use crate::text::{decimal, decimal_text, number_or_zero, or_text, or_zero, text_of, text_or};
use vstd::prelude::*;

verus! {

/// Six lines, each after a line break: title, artist, album, genre, year and
/// path. `not available` stands in for a missing text, 0 for a missing year.
pub open spec fn rendering(
    title: Option<Seq<char>>,
    artist: Option<Seq<char>>,
    album: Option<Seq<char>>,
    genre: Option<Seq<char>>,
    year: Option<usize>,
    path: Seq<char>,
) -> Seq<char> {
    "\nTitle: "@ + or_text(title, "not available"@)
        + "\nArtist: "@ + or_text(artist, "not available"@)
        + "\nAlbum: "@ + or_text(album, "not available"@)
        + "\nGenre: "@ + or_text(genre, "not available"@)
        + "\nYear: "@ + decimal(or_zero(year) as nat)
        + "\nPath:"@ + path
}

/// Writes the fields of a song out for a reader.
pub fn render(
    title: Option<&str>,
    artist: Option<&str>,
    album: Option<&str>,
    genre: Option<&str>,
    year: Option<usize>,
    path: &str,
) -> (r: String)
    ensures
        r@ == rendering(
            text_of(title),
            text_of(artist),
            text_of(album),
            text_of(genre),
            year,
            path@,
        ),
{
    let year_text = decimal_text(number_or_zero(year));
    let mut out = String::from_str("\nTitle: ");
    out.append(text_or(title, "not available"));
    out.append("\nArtist: ");
    out.append(text_or(artist, "not available"));
    out.append("\nAlbum: ");
    out.append(text_or(album, "not available"));
    out.append("\nGenre: ");
    out.append(text_or(genre, "not available"));
    out.append("\nYear: ");
    out.append(year_text.as_str());
    out.append("\nPath:");
    out.append(path);
    out
}

} // verus!
