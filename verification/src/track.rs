//! Queue entries.

use vstd::prelude::*;

verus! {

/// The mathematical value of a [`TrackInfo`].
pub struct TrackView {
    pub source: Seq<char>,
    pub requester: u64,
}

/// A queue entry: a request to play a track from a source descriptor.
///
/// The value is immutable: it is made when a play request is accepted and
/// leaves the queue when playback for it starts.
#[derive(Debug, PartialEq, Eq)]
pub struct TrackInfo {
    source: String,
    requester: u64,
}

impl View for TrackInfo {
    type V = TrackView;

    closed spec fn view(&self) -> TrackView {
        TrackView { source: self.source@, requester: self.requester }
    }
}

impl Clone for TrackInfo {
    fn clone(&self) -> (copy: Self)
        ensures
            copy@ == self@,
    {
        TrackInfo { source: self.source.clone(), requester: self.requester }
    }
}

impl TrackInfo {
    /// A request by `requester` to play what `source` describes.
    pub fn new(source: String, requester: u64) -> (track: Self)
        ensures
            track@ == (TrackView { source: source@, requester }),
    {
        TrackInfo { source, requester }
    }

    /// The source descriptor of the requested track.
    pub fn source(&self) -> (source: &String)
        ensures
            source@ == self@.source,
    {
        &self.source
    }

    /// The identity of the user who asked for the track.
    pub fn requester(&self) -> (requester: u64)
        ensures
            requester == self@.requester,
    {
        self.requester
    }
}

/// The values of the entries of a queue, front first.
pub open spec fn track_views(tracks: Seq<TrackInfo>) -> Seq<TrackView> {
    tracks.map_values(|t: TrackInfo| t@)
}

/// The value of an optional entry.
pub open spec fn track_view_opt(track: Option<TrackInfo>) -> Option<TrackView> {
    match track {
        Some(t) => Some(t@),
        None => None,
    }
}

} // verus!
