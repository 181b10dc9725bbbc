//! The outcome of each query on a platform that holds still.
//!
//! A query is made of several native calls, and the platform may change
//! between any two of them. Where it does not, so that the same call always
//! gets the same answer, the outcome of a query can be written down in one
//! piece. This module does so, and proves that the queries come to exactly
//! these outcomes.

use crate::error::{FetchStage, PlayerErrorView};
use crate::metadata::{length_of_ticks, MetadataView};
use crate::native::{ReplyView, Request};
use crate::progress::ProgressView;
use crate::queries::metadata::MetadataQueryView;
use crate::queries::name::{fallback_name, NameQuery};
use crate::queries::position::PositionQuery;
use crate::queries::progress::ProgressQueryView;
use crate::queries::properties::PropertiesQuery;
use crate::queries::status::StatusQuery;
use crate::queries::{session_found, Host, Step};
use crate::status::{status_of_code, PlaybackStatus};
use crate::text::decode_utf16_lossy;
use vstd::prelude::*;

verus! {

/// Whether the host has a current session.
pub open spec fn has_session(host: Host) -> bool {
    host(Request::CurrentSession) == ReplyView::Ready
}

/// The playback status: stopped with no session, else what the native status
/// of the session stands for.
pub open spec fn status_of(host: Host) -> Result<PlaybackStatus, PlayerErrorView> {
    if !has_session(host) {
        Ok(PlaybackStatus::Stopped)
    } else {
        match host(Request::PlaybackStatus).status() {
            Ok(code) => Ok(status_of_code(code)),
            Err(_) => Err(PlayerErrorView::Platform),
        }
    }
}

/// The playback position: zero with no session, else the position in the
/// timeline of the session, as the platform gives it.
pub open spec fn position_of(host: Host) -> Result<i64, PlayerErrorView> {
    if !has_session(host) {
        Ok(0)
    } else {
        match host(Request::TimelinePosition).ticks() {
            Ok(ticks) => Ok(ticks),
            Err(_) => Err(PlayerErrorView::Platform),
        }
    }
}

/// The name of the player: the decoded identifier of the application behind
/// the session, or the fallback where that cannot be had.
pub open spec fn name_of(host: Host) -> Seq<char> {
    if !has_session(host) {
        fallback_name()
    } else {
        match host(Request::SourceApp).text() {
            Ok(units) => decode_utf16_lossy(units),
            Err(_) => fallback_name(),
        }
    }
}

/// Whether the media properties can be fetched, and if not, why not.
pub open spec fn properties_of(host: Host) -> Result<(), PlayerErrorView> {
    match session_found(host(Request::CurrentSession)) {
        Err(error) => Err(error),
        Ok(()) => match host(Request::FetchMediaProperties).ready() {
            Err(detail) => Err(PlayerErrorView::PropertyFetchFailed(FetchStage::Requested, detail)),
            Ok(()) => match host(Request::AwaitMediaProperties).ready() {
                Err(detail) => Err(
                    PlayerErrorView::PropertyFetchFailed(FetchStage::Awaited, detail),
                ),
                Ok(()) => Ok(()),
            },
        },
    }
}

/// The length of the track: zero with no session, else the end time of the
/// timeline of the session.
pub open spec fn length_of(host: Host) -> Result<u64, PlayerErrorView> {
    if !has_session(host) {
        Ok(0)
    } else {
        match host(Request::TimelineEndTime).ticks() {
            Ok(ticks) => Ok(length_of_ticks(ticks)),
            Err(_) => Err(PlayerErrorView::Platform),
        }
    }
}

/// The metadata: that of an unknown track with no session; else the length,
/// then the title and the artist from the fetched media properties, decoded,
/// or the first failure on the way.
pub open spec fn metadata_of(host: Host) -> Result<MetadataView, PlayerErrorView> {
    if !has_session(host) {
        Ok(MetadataView::unknown())
    } else {
        match length_of(host) {
            Err(error) => Err(error),
            Ok(length) => match properties_of(host) {
                Err(error) => Err(error),
                Ok(()) => match host(Request::Title).text() {
                    Err(detail) => Err(PlayerErrorView::PropertyUnreadable(detail)),
                    Ok(title) => match host(Request::Artist).text() {
                        Err(detail) => Err(PlayerErrorView::PropertyUnreadable(detail)),
                        Ok(artist) => Ok(
                            MetadataView {
                                title: decode_utf16_lossy(title),
                                artists: decode_utf16_lossy(artist),
                                length,
                            },
                        ),
                    },
                },
            },
        }
    }
}

/// Metadata, position and status put together: the first failure among them,
/// in that order, or all three.
pub open spec fn bundle(
    metadata: Result<MetadataView, PlayerErrorView>,
    position: Result<i64, PlayerErrorView>,
    status: Result<PlaybackStatus, PlayerErrorView>,
) -> Result<ProgressView, PlayerErrorView> {
    match metadata {
        Err(error) => Err(error),
        Ok(metadata) => match position {
            Err(error) => Err(error),
            Ok(position) => match status {
                Err(error) => Err(error),
                Ok(status) => Ok(ProgressView { metadata, position, status }),
            },
        },
    }
}

/// The progress: metadata, position and status, put together.
pub open spec fn progress_of(host: Host) -> Result<ProgressView, PlayerErrorView> {
    bundle(metadata_of(host), position_of(host), status_of(host))
}

/// The status query comes to [`status_of`].
pub proof fn lemma_status_run(host: Host)
    ensures
        StatusQuery::Session.run(host) == status_of(host),
{
    reveal_with_fuel(StatusQuery::run, 2);
}

/// The position query comes to [`position_of`].
pub proof fn lemma_position_run(host: Host)
    ensures
        PositionQuery::Session.run(host) == position_of(host),
{
    reveal_with_fuel(PositionQuery::run, 2);
}

/// The name query comes to [`name_of`].
pub proof fn lemma_name_run(host: Host)
    ensures
        NameQuery::Session.run(host) == name_of(host),
{
    reveal_with_fuel(NameQuery::run, 2);
}

/// The query that fetches the media properties comes to [`properties_of`].
pub proof fn lemma_properties_run(host: Host)
    ensures
        PropertiesQuery::Session.run(host) == properties_of(host),
{
    reveal_with_fuel(PropertiesQuery::run, 3);
}

/// The metadata query comes to [`metadata_of`].
pub proof fn lemma_metadata_run(host: Host)
    ensures
        MetadataQueryView::Session.run(host) == metadata_of(host),
{
    reveal_with_fuel(MetadataQueryView::run, 7);
}

/// The progress query comes to [`progress_of`].
pub proof fn lemma_progress_run(host: Host)
    ensures
        ProgressQueryView::first().run(host) == progress_of(host),
{
    lemma_metadata_run(host);
    lemma_position_run(host);
    lemma_status_run(host);
    lemma_progress_metadata_stage(MetadataQueryView::Session, host);
    match MetadataQueryView::Session.run(host) {
        Ok(metadata) => {
            lemma_progress_position_stage(metadata, PositionQuery::Session, host);
            match PositionQuery::Session.run(host) {
                Ok(position) => {
                    lemma_progress_status_stage(metadata, position, StatusQuery::Session, host);
                },
                Err(_) => {},
            }
        },
        Err(_) => {},
    }
}

/// While its metadata query is under way, the progress query ends as that
/// query does where it fails, and goes on with the position query where it
/// succeeds.
pub proof fn lemma_progress_metadata_stage(query: MetadataQueryView, host: Host)
    ensures
        (ProgressQueryView::Metadata { query }).run(host) == match query.run(host) {
            Ok(metadata) => (ProgressQueryView::Position {
                metadata,
                query: PositionQuery::Session,
            }).run(host),
            Err(error) => Err(error),
        },
    decreases query.calls_left(),
{
    match query.after(host(query.wants())) {
        Step::Next(next) => {
            lemma_progress_metadata_stage(next, host);
        },
        Step::Done(_) => {},
    }
}

/// While its position query is under way, the progress query ends as that
/// query does where it fails, and goes on with the status query where it
/// succeeds.
pub proof fn lemma_progress_position_stage(
    metadata: MetadataView,
    query: PositionQuery,
    host: Host,
)
    ensures
        (ProgressQueryView::Position { metadata, query }).run(host) == match query.run(host) {
            Ok(position) => (ProgressQueryView::Status {
                metadata,
                position,
                query: StatusQuery::Session,
            }).run(host),
            Err(error) => Err(error),
        },
    decreases query.calls_left(),
{
    match query.after(host(query.wants())) {
        Step::Next(next) => {
            lemma_progress_position_stage(metadata, next, host);
        },
        Step::Done(_) => {},
    }
}

/// While its status query is under way, the progress query ends as that
/// query does, with the metadata and the position it already has.
pub proof fn lemma_progress_status_stage(
    metadata: MetadataView,
    position: i64,
    query: StatusQuery,
    host: Host,
)
    ensures
        (ProgressQueryView::Status { metadata, position, query }).run(host) == match query.run(
            host,
        ) {
            Ok(status) => Ok(ProgressView { metadata, position, status }),
            Err(error) => Err(error),
        },
    decreases query.calls_left(),
{
    match query.after(host(query.wants())) {
        Step::Next(next) => {
            lemma_progress_status_stage(metadata, position, next, host);
        },
        Step::Done(_) => {},
    }
}

} // verus!
