//! The backend itself.

use crate::error::{PlayerError, PlayerErrorView};
use crate::events::{tick_plan, EventStream};
use crate::native::Reply;
use crate::queries::metadata::{MetadataQuery, MetadataQueryView};
use crate::queries::name::NameQuery;
use crate::queries::position::PositionQuery;
use crate::queries::progress::{ProgressQuery, ProgressQueryView};
use crate::queries::properties::PropertiesQuery;
use crate::queries::status::StatusQuery;
use crate::queries::{current_session, outcome_view, session_found};
use vstd::prelude::*;

verus! {

/// A player backend. It owns the platform's session manager, of whatever
/// type `M` the host has for it, from the moment it exists until it is
/// dropped, and never changes it. A backend exists only where the manager was
/// acquired.
pub struct Player<M> {
    session_manager: M,
}

impl<M> Player<M> {
    /// The session manager that the backend owns.
    pub closed spec fn manager(&self) -> M {
        self.session_manager
    }

    /// Makes a backend from the outcome of acquiring the session manager.
    /// Where the platform failed to hand one out, there is no backend.
    pub fn new(acquired: Result<M, String>) -> (player: Result<Player<M>, PlayerError>)
        ensures
            match acquired {
                Ok(manager) => player matches Ok(made) && made.manager() == manager,
                Err(_) => player matches Err(error) && error@
                    == PlayerErrorView::PlatformUnavailable,
            },
    {
        match acquired {
            Ok(session_manager) => Ok(Player { session_manager }),
            Err(_) => Err(PlayerError::PlatformUnavailable),
        }
    }

    /// The session manager, for the host to make its calls on.
    pub fn session_manager(&self) -> (manager: &M)
        ensures
            *manager == self.manager(),
    {
        &self.session_manager
    }

    /// Reads the platform's answer to the question which session is current.
    /// That none is current is an everyday outcome, and is told apart from
    /// every other failure by its own error.
    pub fn current_session(&self, reply: Reply) -> (found: Result<(), PlayerError>)
        ensures
            outcome_view(found) == session_found(reply@),
    {
        current_session(reply)
    }

    /// Starts fetching the media properties of the current session.
    pub fn media_properties(&self) -> (query: PropertiesQuery)
        ensures
            query == PropertiesQuery::Session,
    {
        PropertiesQuery::Session
    }

    /// Starts a query for the metadata of the current track.
    pub fn metadata(&self) -> (query: MetadataQuery)
        ensures
            query@ == MetadataQueryView::Session,
    {
        MetadataQuery::Session
    }

    /// Starts a query for the playback status.
    pub fn playback_status(&self) -> (query: StatusQuery)
        ensures
            query == StatusQuery::Session,
    {
        StatusQuery::Session
    }

    /// Starts a query for the playback position.
    pub fn position(&self) -> (query: PositionQuery)
        ensures
            query == PositionQuery::Session,
    {
        PositionQuery::Session
    }

    /// Starts a query for the name of the player.
    pub fn name(&self) -> (query: NameQuery)
        ensures
            query == NameQuery::Session,
    {
        NameQuery::Session
    }

    /// Starts a query for metadata, position and status together.
    pub fn progress(&self) -> (query: ProgressQuery)
        ensures
            query@ == ProgressQueryView::first(),
    {
        ProgressQuery::Metadata { query: MetadataQuery::Session }
    }

    /// Starts an event stream. This never fails.
    pub fn stream(&self) -> (stream: Result<EventStream, PlayerError>)
        ensures
            stream matches Ok(events) && events.timer() == tick_plan(),
    {
        Ok(EventStream::new())
    }
}

} // verus!
