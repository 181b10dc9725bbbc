//! A snapshot of what is playing.

use crate::metadata::{Metadata, MetadataView};
use crate::status::PlaybackStatus;
use vstd::prelude::*;

verus! {

/// Metadata, position and status, gathered by one query after the other. The
/// three are not read at one instant: where the track changes in between, the
/// parts may belong to different tracks.
#[derive(Debug, PartialEq, Eq)]
pub struct Progress {
    pub metadata: Metadata,
    pub position: i64,
    pub status: PlaybackStatus,
}

/// What a [`Progress`] holds, as mathematical values.
pub ghost struct ProgressView {
    pub metadata: MetadataView,
    pub position: i64,
    pub status: PlaybackStatus,
}

impl View for Progress {
    type V = ProgressView;

    open spec fn view(&self) -> ProgressView {
        ProgressView { metadata: self.metadata@, position: self.position, status: self.status }
    }
}

} // verus!
