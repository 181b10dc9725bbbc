//! The queries of the backend, each as a small state machine.
//!
//! A query starts in its first state. In every state it names the native call
//! it is waiting for; handed the reply to that call, it either moves to its
//! next state or is done and gives its outcome. Nothing is kept between
//! queries: each one resolves the current session anew.

pub mod name;
pub mod metadata;
pub mod position;
pub mod progress;
pub mod properties;
pub mod status;

use crate::error::{PlayerError, PlayerErrorView};
use crate::native::{Reply, ReplyView, Request};
use vstd::prelude::*;

verus! {

/// Where a query stands after a reply.
#[derive(Debug, PartialEq, Eq)]
pub enum Step<Q, T> {
    /// The query goes on from this state.
    Next(Q),
    /// The query is over, with this outcome.
    Done(T),
}

/// A platform whose answer to a native call does not change while it is
/// being queried.
pub type Host = spec_fn(Request) -> ReplyView;

/// An outcome, as mathematical values.
pub open spec fn outcome_view<T: View>(outcome: Result<T, PlayerError>) -> Result<
    T::V,
    PlayerErrorView,
> {
    match outcome {
        Ok(value) => Ok(value@),
        Err(error) => Err(error@),
    }
}

/// A step of a query that may fail, as mathematical values.
pub open spec fn step_view<Q: View, T: View>(step: Step<Q, Result<T, PlayerError>>) -> Step<
    Q::V,
    Result<T::V, PlayerErrorView>,
> {
    match step {
        Step::Next(query) => Step::Next(query@),
        Step::Done(outcome) => Step::Done(outcome_view(outcome)),
    }
}

/// What the reply to [`Request::CurrentSession`] says: a session is current,
/// or none is, which is no fault of the platform.
pub open spec fn session_found(reply: ReplyView) -> Result<(), PlayerErrorView> {
    match reply.ready() {
        Ok(()) => Ok(()),
        Err(detail) => Err(PlayerErrorView::NoCurrentSession(detail)),
    }
}

/// Reads the reply to [`Request::CurrentSession`].
pub(crate) fn current_session(reply: Reply) -> (found: Result<(), PlayerError>)
    ensures
        outcome_view(found) == session_found(reply@),
{
    match reply.into_ready() {
        Ok(()) => Ok(()),
        Err(detail) => Err(PlayerError::NoCurrentSession(detail)),
    }
}

} // verus!
