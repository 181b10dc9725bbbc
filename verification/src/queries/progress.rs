//! Metadata, position and status in one query.

use crate::error::{PlayerError, PlayerErrorView};
use crate::metadata::{Metadata, MetadataView};
use crate::native::{Reply, ReplyView, Request};
use crate::progress::{Progress, ProgressView};
use crate::queries::metadata::{MetadataQuery, MetadataQueryView};
use crate::queries::position::PositionQuery;
use crate::queries::status::StatusQuery;
use crate::queries::{step_view, Host, Step};
use vstd::prelude::*;

verus! {

/// The query for a [`Progress`]: the metadata query, then the position query,
/// then the status query, each from its first state. The first of them that
/// fails ends the query with its failure, and the ones after it are not run.
#[derive(Debug, PartialEq, Eq)]
#[allow(inconsistent_fields)]
pub enum ProgressQuery {
    /// The metadata query is under way.
    Metadata { query: MetadataQuery },
    /// The metadata is there; the position query is under way.
    Position { metadata: Metadata, query: PositionQuery },
    /// Metadata and position are there; the status query is under way.
    Status { metadata: Metadata, position: i64, query: StatusQuery },
}

/// What a [`ProgressQuery`] holds, as mathematical values.
#[allow(inconsistent_fields)]
pub ghost enum ProgressQueryView {
    Metadata { query: MetadataQueryView },
    Position { metadata: MetadataView, query: PositionQuery },
    Status { metadata: MetadataView, position: i64, query: StatusQuery },
}

impl View for ProgressQuery {
    type V = ProgressQueryView;

    open spec fn view(&self) -> ProgressQueryView {
        match self {
            ProgressQuery::Metadata { query } => ProgressQueryView::Metadata { query: query@ },
            ProgressQuery::Position { metadata, query } => ProgressQueryView::Position {
                metadata: metadata@,
                query: *query,
            },
            ProgressQuery::Status { metadata, position, query } => ProgressQueryView::Status {
                metadata: metadata@,
                position: *position,
                query: *query,
            },
        }
    }
}

impl ProgressQueryView {
    /// The query in its first state.
    pub open spec fn first() -> ProgressQueryView {
        ProgressQueryView::Metadata { query: MetadataQueryView::Session }
    }

    /// The native call that the query waits for.
    pub open spec fn wants(self) -> Request {
        match self {
            ProgressQueryView::Metadata { query } => query.wants(),
            ProgressQueryView::Position { query, .. } => query.wants(),
            ProgressQueryView::Status { query, .. } => query.wants(),
        }
    }

    /// Where the query stands once that call is answered by `reply`.
    pub open spec fn after(self, reply: ReplyView) -> Step<
        ProgressQueryView,
        Result<ProgressView, PlayerErrorView>,
    > {
        match self {
            ProgressQueryView::Metadata { query } => match query.after(reply) {
                Step::Next(query) => Step::Next(ProgressQueryView::Metadata { query }),
                Step::Done(Ok(metadata)) => Step::Next(
                    ProgressQueryView::Position { metadata, query: PositionQuery::Session },
                ),
                Step::Done(Err(error)) => Step::Done(Err(error)),
            },
            ProgressQueryView::Position { metadata, query } => match query.after(reply) {
                Step::Next(query) => Step::Next(ProgressQueryView::Position { metadata, query }),
                Step::Done(Ok(position)) => Step::Next(
                    ProgressQueryView::Status { metadata, position, query: StatusQuery::Session },
                ),
                Step::Done(Err(error)) => Step::Done(Err(error)),
            },
            ProgressQueryView::Status { metadata, position, query } => match query.after(reply) {
                Step::Next(query) => Step::Next(
                    ProgressQueryView::Status { metadata, position, query },
                ),
                Step::Done(Ok(status)) => Step::Done(
                    Ok(ProgressView { metadata, position, status }),
                ),
                Step::Done(Err(error)) => Step::Done(Err(error)),
            },
        }
    }

    /// The most native calls that the query can still make.
    pub open spec fn calls_left(self) -> nat {
        match self {
            ProgressQueryView::Metadata { query } => query.calls_left() + 4,
            ProgressQueryView::Position { query, .. } => query.calls_left() + 2,
            ProgressQueryView::Status { query, .. } => query.calls_left(),
        }
    }

    /// The outcome of the query against a platform that does not change.
    pub open spec fn run(self, host: Host) -> Result<ProgressView, PlayerErrorView>
        decreases self.calls_left(),
    {
        match self.after(host(self.wants())) {
            Step::Next(query) => query.run(host),
            Step::Done(outcome) => outcome,
        }
    }
}

impl ProgressQuery {
    /// The native call that the query waits for.
    pub fn pending(&self) -> (request: Request)
        ensures
            request == self@.wants(),
    {
        match self {
            ProgressQuery::Metadata { query } => query.pending(),
            ProgressQuery::Position { query, .. } => query.pending(),
            ProgressQuery::Status { query, .. } => query.pending(),
        }
    }

    /// Takes the reply to the pending call.
    pub fn advance(self, reply: Reply) -> (step: Step<ProgressQuery, Result<Progress, PlayerError>>)
        ensures
            step_view(step) == self@.after(reply@),
    {
        match self {
            ProgressQuery::Metadata { query } => match query.advance(reply) {
                Step::Next(query) => Step::Next(ProgressQuery::Metadata { query }),
                Step::Done(Ok(metadata)) => Step::Next(
                    ProgressQuery::Position { metadata, query: PositionQuery::Session },
                ),
                Step::Done(Err(error)) => Step::Done(Err(error)),
            },
            ProgressQuery::Position { metadata, query } => match query.advance(reply) {
                Step::Next(query) => Step::Next(ProgressQuery::Position { metadata, query }),
                Step::Done(Ok(position)) => Step::Next(
                    ProgressQuery::Status { metadata, position, query: StatusQuery::Session },
                ),
                Step::Done(Err(error)) => Step::Done(Err(error)),
            },
            ProgressQuery::Status { metadata, position, query } => match query.advance(reply) {
                Step::Next(query) => Step::Next(ProgressQuery::Status { metadata, position, query }),
                Step::Done(Ok(status)) => Step::Done(Ok(Progress { metadata, position, status })),
                Step::Done(Err(error)) => Step::Done(Err(error)),
            },
        }
    }
}

} // verus!
