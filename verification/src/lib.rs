//! Checks and completes the descriptive metadata of audio files.
//!
//! A [`SongFile`] pairs the ID3 tag of one file with the path of the file. It
//! decides whether the tag is complete enough for a catalogue, and merges
//! supplementary values, carried by a [`BasicMetadata`], into the tag. Reading
//! the tag from the file and writing it back is left to the caller: nothing in
//! this library touches the disk.
//!
//! The modules:
//! - [`basic_metadata`]: the supplementary values;
//! - [`song_file`]: the song file and what can be done with it;
//! - [`completeness`]: the rule for a complete tag;
//! - [`merge`]: what a merge does to a tag;
//! - [`rendering`]: the text that shows a song;
//! - [`tag`]: the tag, and what is taken on trust from the `id3` crate;
//! - [`path`]: what is taken on trust from the standard library about paths;
//! - [`text`]: helpers on text.

pub mod basic_metadata;
pub mod completeness;
pub mod merge;
pub mod path;
pub mod rendering;
pub mod song_file;
pub mod tag;
pub mod text;

pub use basic_metadata::BasicMetadata;
pub use song_file::{SongError, SongFile};
