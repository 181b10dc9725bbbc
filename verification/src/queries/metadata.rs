//! The metadata of the current track.

use crate::error::{PlayerError, PlayerErrorView};
use crate::metadata::{length_from_ticks, length_of_ticks, Metadata, MetadataView};
use crate::native::{Reply, ReplyView, Request};
use crate::queries::properties::PropertiesQuery;
use crate::queries::{current_session, session_found, step_view, Host, Step};
use crate::text::{decode_text, decode_utf16_lossy};
use vstd::prelude::*;

verus! {

/// The query for the metadata.
///
/// The length comes from the timeline of the current session and is zero
/// where no session is current; a timeline that cannot be read fails the
/// query. Title and artist come from the media properties, which are fetched
/// whatever the timeline said; that fetch resolves the session once more.
/// Where it finds none, nothing has gone wrong: title and artist are empty,
/// and with no session from the start the metadata is that of an unknown
/// track. Every other failure of the fetch fails the query.
#[derive(Debug, PartialEq, Eq)]
pub enum MetadataQuery {
    /// Waiting to learn whether a session is current.
    Session,
    /// A session is current; waiting for the end time of its timeline.
    EndTime,
    /// The length is settled; the media properties are being fetched.
    Properties { length: u64, fetch: PropertiesQuery },
    /// The properties are fetched; waiting for the title.
    Title { length: u64 },
    /// The title is read; waiting for the artist.
    Artist { length: u64, title: String },
}

/// What a [`MetadataQuery`] holds, as mathematical values.
pub ghost enum MetadataQueryView {
    Session,
    EndTime,
    Properties { length: u64, fetch: PropertiesQuery },
    Title { length: u64 },
    Artist { length: u64, title: Seq<char> },
}

impl View for MetadataQuery {
    type V = MetadataQueryView;

    open spec fn view(&self) -> MetadataQueryView {
        match self {
            MetadataQuery::Session => MetadataQueryView::Session,
            MetadataQuery::EndTime => MetadataQueryView::EndTime,
            MetadataQuery::Properties { length, fetch } => MetadataQueryView::Properties {
                length: *length,
                fetch: *fetch,
            },
            MetadataQuery::Title { length } => MetadataQueryView::Title { length: *length },
            MetadataQuery::Artist { length, title } => MetadataQueryView::Artist {
                length: *length,
                title: title@,
            },
        }
    }
}

impl MetadataQueryView {
    /// The native call that the query waits for.
    pub open spec fn wants(self) -> Request {
        match self {
            MetadataQueryView::Session => Request::CurrentSession,
            MetadataQueryView::EndTime => Request::TimelineEndTime,
            MetadataQueryView::Properties { fetch, .. } => fetch.wants(),
            MetadataQueryView::Title { .. } => Request::Title,
            MetadataQueryView::Artist { .. } => Request::Artist,
        }
    }

    /// Where the query stands once that call is answered by `reply`.
    pub open spec fn after(self, reply: ReplyView) -> Step<
        MetadataQueryView,
        Result<MetadataView, PlayerErrorView>,
    > {
        match self {
            MetadataQueryView::Session => match session_found(reply) {
                Ok(()) => Step::Next(MetadataQueryView::EndTime),
                Err(_) => Step::Next(
                    MetadataQueryView::Properties { length: 0, fetch: PropertiesQuery::Session },
                ),
            },
            MetadataQueryView::EndTime => match reply.ticks() {
                Ok(ticks) => Step::Next(
                    MetadataQueryView::Properties {
                        length: length_of_ticks(ticks),
                        fetch: PropertiesQuery::Session,
                    },
                ),
                Err(_) => Step::Done(Err(PlayerErrorView::Platform)),
            },
            MetadataQueryView::Properties { length, fetch } => match fetch.after(reply) {
                Step::Next(fetch) => Step::Next(MetadataQueryView::Properties { length, fetch }),
                Step::Done(Ok(())) => Step::Next(MetadataQueryView::Title { length }),
                Step::Done(Err(PlayerErrorView::NoCurrentSession(_))) => Step::Done(
                    Ok(MetadataView::untitled(length)),
                ),
                Step::Done(Err(error)) => Step::Done(Err(error)),
            },
            MetadataQueryView::Title { length } => match reply.text() {
                Ok(units) => Step::Next(
                    MetadataQueryView::Artist { length, title: decode_utf16_lossy(units) },
                ),
                Err(detail) => Step::Done(Err(PlayerErrorView::PropertyUnreadable(detail))),
            },
            MetadataQueryView::Artist { length, title } => match reply.text() {
                Ok(units) => Step::Done(
                    Ok(MetadataView { title, artists: decode_utf16_lossy(units), length }),
                ),
                Err(detail) => Step::Done(Err(PlayerErrorView::PropertyUnreadable(detail))),
            },
        }
    }

    /// The most native calls that the query can still make.
    pub open spec fn calls_left(self) -> nat {
        match self {
            MetadataQueryView::Session => 7,
            MetadataQueryView::EndTime => 6,
            MetadataQueryView::Properties { fetch, .. } => fetch.calls_left() + 2,
            MetadataQueryView::Title { .. } => 2,
            MetadataQueryView::Artist { .. } => 1,
        }
    }

    /// The outcome of the query against a platform that does not change.
    pub open spec fn run(self, host: Host) -> Result<MetadataView, PlayerErrorView>
        decreases self.calls_left(),
    {
        match self.after(host(self.wants())) {
            Step::Next(query) => query.run(host),
            Step::Done(outcome) => outcome,
        }
    }
}

impl MetadataQuery {
    /// The native call that the query waits for.
    pub fn pending(&self) -> (request: Request)
        ensures
            request == self@.wants(),
    {
        match self {
            MetadataQuery::Session => Request::CurrentSession,
            MetadataQuery::EndTime => Request::TimelineEndTime,
            MetadataQuery::Properties { fetch, .. } => fetch.pending(),
            MetadataQuery::Title { .. } => Request::Title,
            MetadataQuery::Artist { .. } => Request::Artist,
        }
    }

    /// Takes the reply to the pending call.
    pub fn advance(self, reply: Reply) -> (step: Step<MetadataQuery, Result<Metadata, PlayerError>>)
        ensures
            step_view(step) == self@.after(reply@),
    {
        match self {
            MetadataQuery::Session => match current_session(reply) {
                Ok(()) => Step::Next(MetadataQuery::EndTime),
                Err(_) => Step::Next(
                    MetadataQuery::Properties { length: 0, fetch: PropertiesQuery::Session },
                ),
            },
            MetadataQuery::EndTime => match reply.into_ticks() {
                Ok(ticks) => Step::Next(
                    MetadataQuery::Properties {
                        length: length_from_ticks(ticks),
                        fetch: PropertiesQuery::Session,
                    },
                ),
                Err(_) => Step::Done(Err(PlayerError::Platform)),
            },
            MetadataQuery::Properties { length, fetch } => match fetch.advance(reply) {
                Step::Next(fetch) => Step::Next(MetadataQuery::Properties { length, fetch }),
                Step::Done(Ok(())) => Step::Next(MetadataQuery::Title { length }),
                Step::Done(Err(PlayerError::NoCurrentSession(_))) => Step::Done(
                    Ok(Metadata::new(String::new(), String::new(), length)),
                ),
                Step::Done(Err(error)) => Step::Done(Err(error)),
            },
            MetadataQuery::Title { length } => match reply.into_text() {
                Ok(units) => Step::Next(
                    MetadataQuery::Artist { length, title: decode_text(units.as_slice()) },
                ),
                Err(detail) => Step::Done(Err(PlayerError::PropertyUnreadable(detail))),
            },
            MetadataQuery::Artist { length, title } => match reply.into_text() {
                Ok(units) => Step::Done(
                    Ok(Metadata::new(title, decode_text(units.as_slice()), length)),
                ),
                Err(detail) => Step::Done(Err(PlayerError::PropertyUnreadable(detail))),
            },
        }
    }
}

} // verus!
