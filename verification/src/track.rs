//! What is known of one playable track.

use vstd::prelude::*;
use crate::ids::TrackTicket;

verus! {

/// One playable audio source, by its metadata.
#[derive(Debug, PartialEq, Eq)]
pub struct TrackEntry {
    pub title: String,
    pub artist: String,
    pub duration_secs: Option<u64>,
}

/// The mathematical value of a [`TrackEntry`].
pub ghost struct TrackEntryView {
    pub title: Seq<char>,
    pub artist: Seq<char>,
    pub duration_secs: Option<u64>,
}

impl View for TrackEntry {
    type V = TrackEntryView;

    open spec fn view(&self) -> TrackEntryView {
        TrackEntryView {
            title: self.title@,
            artist: self.artist@,
            duration_secs: self.duration_secs,
        }
    }
}

impl Clone for TrackEntry {
    fn clone(&self) -> (copy: Self)
        ensures
            copy@ == self@,
    {
        TrackEntry {
            title: self.title.clone(),
            artist: self.artist.clone(),
            duration_secs: self.duration_secs,
        }
    }
}

impl TrackEntry {
    /// An entry with the given metadata.
    pub fn new(title: String, artist: String, duration_secs: Option<u64>) -> (entry: Self)
        ensures
            entry@ == (TrackEntryView { title: title@, artist: artist@, duration_secs }),
    {
        TrackEntry { title, artist, duration_secs }
    }
}

/// A track as a queue holds it: the entry and the ticket it was given.
#[derive(Debug, PartialEq, Eq)]
pub struct QueuedTrack {
    pub ticket: TrackTicket,
    pub entry: TrackEntry,
}

/// The mathematical value of a [`QueuedTrack`].
pub ghost struct QueuedTrackView {
    pub ticket: TrackTicket,
    pub entry: TrackEntryView,
}

impl View for QueuedTrack {
    type V = QueuedTrackView;

    open spec fn view(&self) -> QueuedTrackView {
        QueuedTrackView { ticket: self.ticket, entry: self.entry@ }
    }
}

impl Clone for QueuedTrack {
    fn clone(&self) -> (copy: Self)
        ensures
            copy@ == self@,
    {
        QueuedTrack { ticket: self.ticket, entry: self.entry.clone() }
    }
}

} // verus!
