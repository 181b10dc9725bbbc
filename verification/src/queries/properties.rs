//! Fetching the media properties of the current session.

use crate::error::{FetchStage, PlayerError, PlayerErrorView};
use crate::native::{Reply, ReplyView, Request};
use crate::queries::{current_session, session_found, step_view, Host, Step};
use vstd::prelude::*;

verus! {

/// The query that fetches the media properties. It resolves the session
/// itself and fails where none is current. When it is done without failure,
/// the host holds the properties.
#[derive(Clone, Copy, Debug, PartialEq, Eq, Structural)]
pub enum PropertiesQuery {
    /// Waiting to learn whether a session is current.
    Session,
    /// A session is current; waiting for the fetch to be started.
    Fetch,
    /// The fetch is under way; waiting for it to complete.
    Completion,
}

impl View for PropertiesQuery {
    type V = PropertiesQuery;

    open spec fn view(&self) -> PropertiesQuery {
        *self
    }
}

impl PropertiesQuery {
    /// The native call that the query waits for.
    pub open spec fn wants(self) -> Request {
        match self {
            PropertiesQuery::Session => Request::CurrentSession,
            PropertiesQuery::Fetch => Request::FetchMediaProperties,
            PropertiesQuery::Completion => Request::AwaitMediaProperties,
        }
    }

    /// Where the query stands once that call is answered by `reply`.
    pub open spec fn after(self, reply: ReplyView) -> Step<
        PropertiesQuery,
        Result<(), PlayerErrorView>,
    > {
        match self {
            PropertiesQuery::Session => match session_found(reply) {
                Ok(()) => Step::Next(PropertiesQuery::Fetch),
                Err(error) => Step::Done(Err(error)),
            },
            PropertiesQuery::Fetch => match reply.ready() {
                Ok(()) => Step::Next(PropertiesQuery::Completion),
                Err(detail) => Step::Done(
                    Err(PlayerErrorView::PropertyFetchFailed(FetchStage::Requested, detail)),
                ),
            },
            PropertiesQuery::Completion => match reply.ready() {
                Ok(()) => Step::Done(Ok(())),
                Err(detail) => Step::Done(
                    Err(PlayerErrorView::PropertyFetchFailed(FetchStage::Awaited, detail)),
                ),
            },
        }
    }

    /// The most native calls that the query can still make.
    pub open spec fn calls_left(self) -> nat {
        match self {
            PropertiesQuery::Session => 3,
            PropertiesQuery::Fetch => 2,
            PropertiesQuery::Completion => 1,
        }
    }

    /// The outcome of the query against a platform that does not change.
    pub open spec fn run(self, host: Host) -> Result<(), PlayerErrorView>
        decreases self.calls_left(),
    {
        match self.after(host(self.wants())) {
            Step::Next(query) => query.run(host),
            Step::Done(outcome) => outcome,
        }
    }

    /// The native call that the query waits for.
    pub fn pending(&self) -> (request: Request)
        ensures
            request == self.wants(),
    {
        match self {
            PropertiesQuery::Session => Request::CurrentSession,
            PropertiesQuery::Fetch => Request::FetchMediaProperties,
            PropertiesQuery::Completion => Request::AwaitMediaProperties,
        }
    }

    /// Takes the reply to the pending call.
    pub fn advance(self, reply: Reply) -> (step: Step<PropertiesQuery, Result<(), PlayerError>>)
        ensures
            step_view(step) == self.after(reply@),
    {
        match self {
            PropertiesQuery::Session => match current_session(reply) {
                Ok(()) => Step::Next(PropertiesQuery::Fetch),
                Err(error) => Step::Done(Err(error)),
            },
            PropertiesQuery::Fetch => match reply.into_ready() {
                Ok(()) => Step::Next(PropertiesQuery::Completion),
                Err(detail) => Step::Done(
                    Err(PlayerError::PropertyFetchFailed(FetchStage::Requested, detail)),
                ),
            },
            PropertiesQuery::Completion => match reply.into_ready() {
                Ok(()) => Step::Done(Ok(())),
                Err(detail) => Step::Done(
                    Err(PlayerError::PropertyFetchFailed(FetchStage::Awaited, detail)),
                ),
            },
        }
    }
}

} // verus!
