//! The display name of the player.

use crate::native::{Reply, ReplyView, Request};
use crate::queries::{current_session, session_found, Host, Step};
use crate::text::{decode_text, decode_utf16_lossy};
use vstd::prelude::*;

verus! {

/// The name that is given when the platform offers none.
pub open spec fn fallback_name() -> Seq<char> {
    "windows-api"@
}

/// The query for the player's name: the identifier of the application behind
/// the current session. It cannot fail; where there is no session, or its
/// identifier cannot be read, the name is the fallback.
#[derive(Clone, Copy, Debug, PartialEq, Eq, Structural)]
pub enum NameQuery {
    /// Waiting to learn whether a session is current.
    Session,
    /// A session is current; waiting for the identifier of its application.
    SourceApp,
}

impl View for NameQuery {
    type V = NameQuery;

    open spec fn view(&self) -> NameQuery {
        *self
    }
}

/// A step of the name query, as mathematical values.
pub open spec fn name_step_view(step: Step<NameQuery, String>) -> Step<NameQuery, Seq<char>> {
    match step {
        Step::Next(query) => Step::Next(query),
        Step::Done(name) => Step::Done(name@),
    }
}

impl NameQuery {
    /// The native call that the query waits for.
    pub open spec fn wants(self) -> Request {
        match self {
            NameQuery::Session => Request::CurrentSession,
            NameQuery::SourceApp => Request::SourceApp,
        }
    }

    /// Where the query stands once that call is answered by `reply`.
    pub open spec fn after(self, reply: ReplyView) -> Step<NameQuery, Seq<char>> {
        match self {
            NameQuery::Session => match session_found(reply) {
                Ok(()) => Step::Next(NameQuery::SourceApp),
                Err(_) => Step::Done(fallback_name()),
            },
            NameQuery::SourceApp => match reply.text() {
                Ok(units) => Step::Done(decode_utf16_lossy(units)),
                Err(_) => Step::Done(fallback_name()),
            },
        }
    }

    /// The most native calls that the query can still make.
    pub open spec fn calls_left(self) -> nat {
        match self {
            NameQuery::Session => 2,
            NameQuery::SourceApp => 1,
        }
    }

    /// The outcome of the query against a platform that does not change.
    pub open spec fn run(self, host: Host) -> Seq<char>
        decreases self.calls_left(),
    {
        match self.after(host(self.wants())) {
            Step::Next(query) => query.run(host),
            Step::Done(name) => name,
        }
    }

    /// The native call that the query waits for.
    pub fn pending(&self) -> (request: Request)
        ensures
            request == self.wants(),
    {
        match self {
            NameQuery::Session => Request::CurrentSession,
            NameQuery::SourceApp => Request::SourceApp,
        }
    }

    /// Takes the reply to the pending call.
    pub fn advance(self, reply: Reply) -> (step: Step<NameQuery, String>)
        ensures
            name_step_view(step) == self.after(reply@),
    {
        match self {
            NameQuery::Session => match current_session(reply) {
                Ok(()) => Step::Next(NameQuery::SourceApp),
                Err(_) => Step::Done(String::from_str("windows-api")),
            },
            NameQuery::SourceApp => match reply.into_text() {
                Ok(units) => Step::Done(decode_text(units.as_slice())),
                Err(_) => Step::Done(String::from_str("windows-api")),
            },
        }
    }
}

} // verus!
