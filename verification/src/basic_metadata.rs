//! The supplementary fields that may be merged into a tag.

use vstd::prelude::*;

verus! {

/// Years up to this one are read as "not set": a real date lies after it.
pub const YEAR_FLOOR: u16 = 1800;

/// Supplementary metadata of one song.
///
/// Title and artist are missing on purpose: together they are the key under
/// which a song is looked up, so they have to be right from the start and are
/// never replaced.
pub struct BasicMetadata {
    pub genre: String,
    pub album: String,
    pub track_number: u32,
    pub date: i32,
    pub composer: String,
}

impl BasicMetadata {
    /// Whether every field has the empty value of its type.
    pub open spec fn is_blank(&self) -> bool {
        &&& self.genre@ == Seq::<char>::empty()
        &&& self.album@ == Seq::<char>::empty()
        &&& self.track_number == 0
        &&& self.date == 0
        &&& self.composer@ == Seq::<char>::empty()
    }

    /// Whether at least one field carries a meaningful value.
    pub open spec fn carries_data(&self) -> bool {
        ||| self.genre@.len() > 0
        ||| self.album@.len() > 0
        ||| self.composer@.len() > 0
        ||| self.track_number > 0
        ||| self.date > YEAR_FLOOR
    }

    /// A value with every field empty.
    pub fn new() -> (r: BasicMetadata)
        ensures
            r.is_blank(),
            !r.carries_data(),
    {
        BasicMetadata {
            genre: String::new(),
            album: String::new(),
            track_number: 0,
            date: 0,
            composer: String::new(),
        }
    }

    /// A blank value carries no data, and one field is enough to carry some,
    /// whatever the others hold: a text that is not empty, a track number
    /// above zero, or a year after 1800.
    pub proof fn lemma_one_field_is_data(&self)
        ensures
            self.is_blank() ==> !self.carries_data(),
            self.genre@.len() > 0 ==> self.carries_data(),
            self.album@.len() > 0 ==> self.carries_data(),
            self.composer@.len() > 0 ==> self.carries_data(),
            self.track_number > 0 ==> self.carries_data(),
            self.date > 1800 ==> self.carries_data(),
    {
    }

    /// Tells whether any field holds meaningful data.
    pub fn has_some_data(&self) -> (r: bool)
        ensures
            r == self.carries_data(),
    {
        !self.genre.as_str().is_empty() || !self.album.as_str().is_empty()
            || !self.composer.as_str().is_empty() || self.track_number > 0 || self.date
            > YEAR_FLOOR as i32
    }
}

} // verus!
