//! Queueable tracks.

use vstd::prelude::*;
use vstd::string::*;

verus! {

/// The title given to a track whose metadata carries none.
pub open spec fn placeholder_title() -> Seq<char> {
    "[object Object]"@
}

/// What a resolver learned about a track.
#[derive(Debug, PartialEq, Eq)]
pub struct TrackMetadata {
    /// The track's title, where the source names one.
    pub title: Option<String>,
    /// The track's length in milliseconds, where the source tells it.
    pub duration: Option<u64>,
}

/// The mathematical content of a [`PlaylistItem`].
pub struct PlaylistItemView {
    pub title: Seq<char>,
    pub source_reference: u64,
    pub original_query: Seq<char>,
    pub duration: Option<u64>,
}

/// One resolved, queueable track. Its fields are fixed at construction.
#[derive(Debug, PartialEq, Eq)]
pub struct PlaylistItem {
    title: String,
    source_reference: u64,
    original_query: String,
    duration: Option<u64>,
}

impl View for PlaylistItem {
    type V = PlaylistItemView;

    closed spec fn view(&self) -> PlaylistItemView {
        PlaylistItemView {
            title: self.title@,
            source_reference: self.source_reference,
            original_query: self.original_query@,
            duration: self.duration,
        }
    }
}

impl Clone for PlaylistItem {
    fn clone(&self) -> (copy: Self)
        ensures
            copy == *self,
    {
        PlaylistItem {
            title: self.title.clone(),
            source_reference: self.source_reference,
            original_query: self.original_query.clone(),
            duration: self.duration,
        }
    }
}

impl PlaylistItem {
    /// An item with exactly the given fields.
    pub fn new(
        title: String,
        source_reference: u64,
        original_query: String,
        duration: Option<u64>,
    ) -> (item: PlaylistItem)
        ensures
            item@ == (PlaylistItemView {
                title: title@,
                source_reference,
                original_query: original_query@,
                duration,
            }),
    {
        PlaylistItem { title, source_reference, original_query, duration }
    }

    /// The item for a resolved request: the metadata's title, or the
    /// placeholder where it has none, with the metadata's duration.
    pub fn from_metadata(
        metadata: TrackMetadata,
        source_reference: u64,
        original_query: String,
    ) -> (item: PlaylistItem)
        ensures
            item@ == (PlaylistItemView {
                title: match metadata.title {
                    Some(t) => t@,
                    None => placeholder_title(),
                },
                source_reference,
                original_query: original_query@,
                duration: metadata.duration,
            }),
    {
        let title = match metadata.title {
            Some(t) => t,
            None => String::from_str("[object Object]"),
        };
        PlaylistItem { title, source_reference, original_query, duration: metadata.duration }
    }

    /// The display title.
    pub fn title(&self) -> (t: &String)
        ensures
            t@ == self@.title,
    {
        &self.title
    }

    /// The handle by which the transport starts this track.
    pub fn source_reference(&self) -> (s: u64)
        ensures
            s == self@.source_reference,
    {
        self.source_reference
    }

    /// The request as it was typed.
    pub fn original_query(&self) -> (q: &String)
        ensures
            q@ == self@.original_query,
    {
        &self.original_query
    }

    /// The track's length in milliseconds, where known.
    pub fn duration(&self) -> (d: Option<u64>)
        ensures
            d == self@.duration,
    {
        self.duration
    }
}

} // verus!
