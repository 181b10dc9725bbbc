//! The playback status of the current session.

use crate::error::{PlayerError, PlayerErrorView};
use crate::native::{Reply, ReplyView, Request};
use crate::queries::{current_session, session_found, step_view, Host, Step};
use crate::status::{status_of_code, PlaybackStatus};
use vstd::prelude::*;

verus! {

/// The query for the playback status. With no current session the player is
/// stopped; with one, its native status decides.
#[derive(Clone, Copy, Debug, PartialEq, Eq, Structural)]
pub enum StatusQuery {
    /// Waiting to learn whether a session is current.
    Session,
    /// A session is current; waiting for its native status.
    Status,
}

impl View for StatusQuery {
    type V = StatusQuery;

    open spec fn view(&self) -> StatusQuery {
        *self
    }
}

impl StatusQuery {
    /// The native call that the query waits for.
    pub open spec fn wants(self) -> Request {
        match self {
            StatusQuery::Session => Request::CurrentSession,
            StatusQuery::Status => Request::PlaybackStatus,
        }
    }

    /// Where the query stands once that call is answered by `reply`.
    pub open spec fn after(self, reply: ReplyView) -> Step<
        StatusQuery,
        Result<PlaybackStatus, PlayerErrorView>,
    > {
        match self {
            StatusQuery::Session => match session_found(reply) {
                Ok(()) => Step::Next(StatusQuery::Status),
                Err(_) => Step::Done(Ok(PlaybackStatus::Stopped)),
            },
            StatusQuery::Status => match reply.status() {
                Ok(code) => Step::Done(Ok(status_of_code(code))),
                Err(_) => Step::Done(Err(PlayerErrorView::Platform)),
            },
        }
    }

    /// The most native calls that the query can still make.
    pub open spec fn calls_left(self) -> nat {
        match self {
            StatusQuery::Session => 2,
            StatusQuery::Status => 1,
        }
    }

    /// The outcome of the query against a platform that does not change.
    pub open spec fn run(self, host: Host) -> Result<PlaybackStatus, PlayerErrorView>
        decreases self.calls_left(),
    {
        match self.after(host(self.wants())) {
            Step::Next(query) => query.run(host),
            Step::Done(outcome) => outcome,
        }
    }

    /// The native call that the query waits for.
    pub fn pending(&self) -> (request: Request)
        ensures
            request == self.wants(),
    {
        match self {
            StatusQuery::Session => Request::CurrentSession,
            StatusQuery::Status => Request::PlaybackStatus,
        }
    }

    /// Takes the reply to the pending call.
    pub fn advance(self, reply: Reply) -> (step: Step<
        StatusQuery,
        Result<PlaybackStatus, PlayerError>,
    >)
        ensures
            step_view(step) == self.after(reply@),
    {
        match self {
            StatusQuery::Session => match current_session(reply) {
                Ok(()) => Step::Next(StatusQuery::Status),
                Err(_) => Step::Done(Ok(PlaybackStatus::Stopped)),
            },
            StatusQuery::Status => match reply.into_status() {
                Ok(code) => Step::Done(Ok(PlaybackStatus::from_native(code))),
                Err(_) => Step::Done(Err(PlayerError::Platform)),
            },
        }
    }
}

} // verus!
