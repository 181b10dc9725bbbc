//! What is known about the current track.

use crate::error::PlayerError;
use vstd::prelude::*;

verus! {

/// Title, artists and length of a track. The artists are one combined text,
/// not a list; the length is in the platform's own ticks. The default value,
/// with empty texts and length zero, stands for an unknown track.
#[derive(Debug, PartialEq, Eq)]
pub struct Metadata {
    title: String,
    artists: String,
    length: u64,
}

/// What a [`Metadata`] holds, as mathematical values.
pub ghost struct MetadataView {
    pub title: Seq<char>,
    pub artists: Seq<char>,
    pub length: u64,
}

/// The length that a native end time stands for. The ticks are taken as they
/// are, with no change of unit; a negative end time wraps around to the top of
/// the unsigned range.
pub open spec fn length_of_ticks(ticks: i64) -> u64 {
    if ticks >= 0 {
        ticks as u64
    } else {
        (ticks + 0x1_0000_0000_0000_0000) as u64
    }
}

/// The length for a native end time.
pub fn length_from_ticks(ticks: i64) -> (length: u64)
    ensures
        length == length_of_ticks(ticks),
{
    if ticks >= 0 {
        ticks as u64
    } else {
        u64::MAX - ((-(ticks + 1)) as u64)
    }
}

impl MetadataView {
    /// The metadata of an unknown track.
    pub open spec fn unknown() -> MetadataView {
        MetadataView { title: Seq::empty(), artists: Seq::empty(), length: 0 }
    }

    /// The metadata of a track of which only the length is known.
    pub open spec fn untitled(length: u64) -> MetadataView {
        MetadataView { title: Seq::empty(), artists: Seq::empty(), length }
    }
}

/// What is made by default stands for an unknown track: its title and its
/// artists are empty and its length is zero, which is what the projections of
/// a default [`Metadata`] give.
pub proof fn lemma_unknown_is_empty()
    ensures
        MetadataView::unknown().title == Seq::<char>::empty(),
        MetadataView::unknown().artists == Seq::<char>::empty(),
        MetadataView::unknown().length == 0,
{
}

impl View for Metadata {
    type V = MetadataView;

    closed spec fn view(&self) -> MetadataView {
        MetadataView { title: self.title@, artists: self.artists@, length: self.length }
    }
}

impl Default for Metadata {
    fn default() -> (metadata: Metadata)
        ensures
            metadata@ == MetadataView::unknown(),
            metadata@.title.len() == 0,
            metadata@.artists.len() == 0,
            metadata@.length == 0,
    {
        Metadata { title: String::new(), artists: String::new(), length: 0 }
    }
}

impl Clone for Metadata {
    fn clone(&self) -> (copy: Metadata)
        ensures
            copy@ == self@,
    {
        Metadata { title: self.title.clone(), artists: self.artists.clone(), length: self.length }
    }
}

impl Metadata {
    /// Metadata with the given title, artists and length.
    pub fn new(title: String, artists: String, length: u64) -> (metadata: Metadata)
        ensures
            metadata@ == (MetadataView { title: title@, artists: artists@, length }),
    {
        Metadata { title, artists, length }
    }

    /// The title. Never fails.
    pub fn title(&self) -> (title: Result<String, PlayerError>)
        ensures
            title matches Ok(text) && text@ == self@.title,
    {
        Ok(self.title.clone())
    }

    /// The artists, as one text. Never fails.
    pub fn artists(&self) -> (artists: Result<String, PlayerError>)
        ensures
            artists matches Ok(text) && text@ == self@.artists,
    {
        Ok(self.artists.clone())
    }

    /// The length in ticks. Never fails.
    pub fn length(&self) -> (length: Result<u64, PlayerError>)
        ensures
            length == Ok::<u64, PlayerError>(self@.length),
    {
        Ok(self.length)
    }
}

} // verus!
