//! One audio file: its tag, its extension and its path.

use crate::basic_metadata::BasicMetadata;
use crate::completeness::is_complete;
use crate::merge::{lemma_last_merge_wins, lemma_merge_twice, lemma_merged_fields};
use crate::path::{extension_of, lowercase, lowercased, path_extension};
use crate::rendering::{render, rendering};
use crate::tag::{
    lemma_with_text, tag_album, tag_artist, tag_genre, tag_set_album, tag_set_album_artist,
    tag_set_date_recorded, tag_set_date_released, tag_set_genre, tag_set_track, tag_title,
    tag_view, tag_year, DateStamp, Field, TagView,
};
use crate::text::text_of;
use vstd::prelude::*;

verus! {

/// Why an operation on a song file was refused.
#[derive(Debug, Clone, Copy, PartialEq, Eq)]
pub enum SongError {
    /// The path of the file has no extension.
    Extension,
    /// The tag names no artist, so there is nothing to take the album artist
    /// from.
    MissingArtist,
}

/// The tag of one audio file, with the path of the file and its extension in
/// lower case.
///
/// The tag lives in memory only. Whoever changes it has to write it back to
/// the path it came from, or the change is lost.
pub struct SongFile {
    pub metadata: id3::Tag,
    extension: String,
    file_path: String,
}

/// What a song file stands for in contracts.
pub struct SongView {
    pub tag: TagView,
    pub extension: Seq<char>,
    pub path: Seq<char>,
}

impl SongView {
    /// Whether the tag of the song is complete.
    pub open spec fn complete(self) -> bool {
        self.tag.complete()
    }

    /// The song as it is shown to a reader.
    pub open spec fn rendered(self) -> Seq<char> {
        rendering(
            self.tag.text(Field::Title),
            self.tag.text(Field::Artist),
            self.tag.text(Field::Album),
            self.tag.text(Field::Genre),
            self.tag.year(),
            self.path,
        )
    }
}

impl View for SongFile {
    type V = SongView;

    closed spec fn view(&self) -> SongView {
        SongView {
            tag: tag_view(self.metadata),
            extension: self.extension@,
            path: self.file_path@,
        }
    }
}

impl SongFile {
    /// The tag that the song file holds.
    pub closed spec fn tag(&self) -> id3::Tag {
        self.metadata
    }

    /// The view of a song file shows the tag that the song file holds.
    pub proof fn lemma_view_of_tag(&self)
        ensures
            self@.tag == tag_view(self.tag()),
    {
    }

    /// Makes a song file of a tag that was read from `file_path`.
    ///
    /// The path has to have an extension, which is kept in lower case.
    pub fn make(tag: id3::Tag, file_path: &str) -> (r: Result<SongFile, SongError>)
        ensures
            match path_extension(file_path@) {
                Some(extension) => {
                    &&& r matches Ok(song)
                    &&& song.tag() == tag
                    &&& song@ == (SongView {
                        tag: tag_view(tag),
                        extension: lowercase(extension),
                        path: file_path@,
                    })
                },
                None => r matches Err(e) && e == SongError::Extension,
            },
    {
        SongFile::with_extension(tag, extension_of(file_path), file_path)
    }

    /// Makes a song file of a tag, the path it was read from, and the extension
    /// that was found in the path.
    pub fn with_extension(
        tag: id3::Tag,
        extension: Option<&str>,
        file_path: &str,
    ) -> (r: Result<SongFile, SongError>)
        ensures
            match extension {
                Some(extension) => {
                    &&& r matches Ok(song)
                    &&& song.tag() == tag
                    &&& song@ == (SongView {
                        tag: tag_view(tag),
                        extension: lowercase(extension@),
                        path: file_path@,
                    })
                },
                None => r matches Err(e) && e == SongError::Extension,
            },
    {
        match extension {
            Some(extension) => Ok(
                SongFile {
                    metadata: tag,
                    extension: lowercased(extension),
                    file_path: String::from_str(file_path),
                },
            ),
            None => Err(SongError::Extension),
        }
    }

    /// Tells whether the tag is complete: artist, title, a genre without
    /// parentheses, and a year after 1800.
    pub fn is_metadata_complete(&self) -> (r: bool)
        ensures
            r == self@.complete(),
    {
        let tag = &self.metadata;
        is_complete(tag_artist(tag), tag_title(tag), tag_genre(tag), tag_year(tag))
    }

    /// The path of the file, as it was given when the song file was made.
    pub fn get_filepath_str(&self) -> (r: Option<&str>)
        ensures
            text_of(r) == Some(self@.path),
    {
        Some(self.file_path.as_str())
    }

    /// The extension of the file, in lower case.
    pub fn get_extension(&self) -> (r: &str)
        ensures
            r@ == self@.extension,
    {
        self.extension.as_str()
    }

    /// Merges supplementary values into the tag, in memory.
    ///
    /// The tag has to name an artist, which becomes the album artist; without
    /// one the tag is left as it is. Merging the same values a second time
    /// changes nothing, and of two merges the last one wins: whatever is
    /// merged next, the tag ends as if this merge had not been.
    pub fn set_basic_metadata(&mut self, ext_data: BasicMetadata) -> (r: Result<(), SongError>)
        ensures
            match old(self)@.tag.text(Field::Artist) {
                Some(_) => {
                    &&& r is Ok
                    &&& final(self)@.tag == old(self)@.tag.merged(ext_data)
                    &&& old(self)@.tag.merged_into(ext_data, final(self)@.tag)
                    &&& final(self)@.tag.merged(ext_data) == final(self)@.tag
                    &&& forall|next: BasicMetadata| #[trigger]
                        final(self)@.tag.merged(next) == old(self)@.tag.merged(next)
                    &&& final(self)@.extension == old(self)@.extension
                    &&& final(self)@.path == old(self)@.path
                },
                None => {
                    &&& r matches Err(e)
                    &&& e == SongError::MissingArtist
                    &&& *final(self) == *old(self)
                },
            },
    {
        let album_artist = match tag_artist(&self.metadata) {
            Some(artist) => String::from_str(artist),
            None => {
                return Err(SongError::MissingArtist);
            },
        };
        let ghost before = self@.tag;
        let ghost date = DateStamp::of_year(ext_data.date).text();
        let stamp = DateStamp::year_only(ext_data.date);
        tag_set_album(&mut self.metadata, ext_data.album);
        tag_set_date_recorded(&mut self.metadata, &stamp);
        tag_set_date_released(&mut self.metadata, &stamp);
        tag_set_genre(&mut self.metadata, ext_data.genre);
        proof {
            let t1 = before.with_text(Field::Album, ext_data.album@);
            let t2 = t1.with_text(Field::Recorded, date);
            let t3 = t2.with_text(Field::Released, date);
            lemma_with_text(before, Field::Album, ext_data.album@, Field::Track);
            lemma_with_text(t1, Field::Recorded, date, Field::Track);
            lemma_with_text(t2, Field::Released, date, Field::Track);
            lemma_with_text(t3, Field::Genre, ext_data.genre@, Field::Track);
            assert(self@.tag.text(Field::Track) == before.text(Field::Track));
        }
        tag_set_track(&mut self.metadata, ext_data.track_number);
        tag_set_album_artist(&mut self.metadata, album_artist);
        proof {
            assert(self@.tag == before.merged(ext_data));
            lemma_merged_fields(before, ext_data);
            lemma_merge_twice(before, ext_data);
            assert forall|next: BasicMetadata| #[trigger]
                self@.tag.merged(next) == before.merged(next) by {
                lemma_last_merge_wins(before, ext_data, next);
            }
        }
        Ok(())
    }

    /// The song in words: title, artist, album, genre, year and path, one to
    /// a line.
    pub fn display(&self) -> (r: String)
        ensures
            r@ == self@.rendered(),
    {
        let tag = &self.metadata;
        render(
            tag_title(tag),
            tag_artist(tag),
            tag_album(tag),
            tag_genre(tag),
            tag_year(tag),
            self.file_path.as_str(),
        )
    }
}

} // verus!
