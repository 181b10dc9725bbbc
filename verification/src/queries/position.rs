//! The playback position of the current session.

use crate::error::{PlayerError, PlayerErrorView};
use crate::native::{Reply, ReplyView, Request};
use crate::queries::{current_session, session_found, step_view, Host, Step};
use vstd::prelude::*;

verus! {

/// The query for the playback position, in the platform's ticks. With no
/// current session the position is zero; with one, the platform's value is
/// handed on as it is, whatever its sign or size.
#[derive(Clone, Copy, Debug, PartialEq, Eq, Structural)]
pub enum PositionQuery {
    /// Waiting to learn whether a session is current.
    Session,
    /// A session is current; waiting for the position in its timeline.
    Position,
}

impl View for PositionQuery {
    type V = PositionQuery;

    open spec fn view(&self) -> PositionQuery {
        *self
    }
}

impl PositionQuery {
    /// The native call that the query waits for.
    pub open spec fn wants(self) -> Request {
        match self {
            PositionQuery::Session => Request::CurrentSession,
            PositionQuery::Position => Request::TimelinePosition,
        }
    }

    /// Where the query stands once that call is answered by `reply`.
    pub open spec fn after(self, reply: ReplyView) -> Step<
        PositionQuery,
        Result<i64, PlayerErrorView>,
    > {
        match self {
            PositionQuery::Session => match session_found(reply) {
                Ok(()) => Step::Next(PositionQuery::Position),
                Err(_) => Step::Done(Ok(0)),
            },
            PositionQuery::Position => match reply.ticks() {
                Ok(ticks) => Step::Done(Ok(ticks)),
                Err(_) => Step::Done(Err(PlayerErrorView::Platform)),
            },
        }
    }

    /// The most native calls that the query can still make.
    pub open spec fn calls_left(self) -> nat {
        match self {
            PositionQuery::Session => 2,
            PositionQuery::Position => 1,
        }
    }

    /// The outcome of the query against a platform that does not change.
    pub open spec fn run(self, host: Host) -> Result<i64, PlayerErrorView>
        decreases self.calls_left(),
    {
        match self.after(host(self.wants())) {
            Step::Next(query) => query.run(host),
            Step::Done(outcome) => outcome,
        }
    }

    /// The native call that the query waits for.
    pub fn pending(&self) -> (request: Request)
        ensures
            request == self.wants(),
    {
        match self {
            PositionQuery::Session => Request::CurrentSession,
            PositionQuery::Position => Request::TimelinePosition,
        }
    }

    /// Takes the reply to the pending call.
    pub fn advance(self, reply: Reply) -> (step: Step<PositionQuery, Result<i64, PlayerError>>)
        ensures
            step_view(step) == self.after(reply@),
    {
        match self {
            PositionQuery::Session => match current_session(reply) {
                Ok(()) => Step::Next(PositionQuery::Position),
                Err(_) => Step::Done(Ok(0)),
            },
            PositionQuery::Position => match reply.into_ticks() {
                Ok(ticks) => Step::Done(Ok(ticks)),
                Err(_) => Step::Done(Err(PlayerError::Platform)),
            },
        }
    }
}

} // verus!
