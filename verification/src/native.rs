//! The native calls that the backend asks for, and what a host answers.
//!
//! The backend never touches the platform. It names the native call it needs
//! next as a [`Request`]; the host performs that call and hands back a
//! [`Reply`]. Sessions, pending fetches and property bags stay with the host:
//! a reply only says that the host now holds one.

use vstd::prelude::*;

verus! {

/// One native call.
#[derive(Clone, Copy, Debug, PartialEq, Eq, Structural)]
pub enum Request {
    /// Ask the session manager for the current session. The host keeps the
    /// session and answers [`Reply::Ready`].
    CurrentSession,
    /// Read the end time of the timeline of the session resolved last.
    /// Answered by [`Reply::Ticks`].
    TimelineEndTime,
    /// Read the position in the timeline of the session resolved last.
    /// Answered by [`Reply::Ticks`].
    TimelinePosition,
    /// Read the playback status of the session resolved last. Answered by
    /// [`Reply::Status`].
    PlaybackStatus,
    /// Read the identifier of the application behind the session resolved
    /// last. Answered by [`Reply::Text`].
    SourceApp,
    /// Start fetching the media properties of the session resolved last. The
    /// host keeps the pending fetch and answers [`Reply::Ready`].
    FetchMediaProperties,
    /// Wait for the pending fetch to complete. The host keeps the properties
    /// and answers [`Reply::Ready`].
    AwaitMediaProperties,
    /// Read the title from the properties fetched last. Answered by
    /// [`Reply::Text`].
    Title,
    /// Read the artist from the properties fetched last. Answered by
    /// [`Reply::Text`].
    Artist,
}

/// Something that the host holds for the backend between two native calls.
pub ghost enum Handle {
    /// The session that was resolved last.
    Session,
    /// The fetch of media properties that was started last.
    PendingFetch,
    /// The media properties that were fetched last.
    Properties,
}

impl Request {
    /// What the host must hold to make the call.
    pub open spec fn needs(self) -> Option<Handle> {
        match self {
            Request::CurrentSession => None,
            Request::TimelineEndTime => Some(Handle::Session),
            Request::TimelinePosition => Some(Handle::Session),
            Request::PlaybackStatus => Some(Handle::Session),
            Request::SourceApp => Some(Handle::Session),
            Request::FetchMediaProperties => Some(Handle::Session),
            Request::AwaitMediaProperties => Some(Handle::PendingFetch),
            Request::Title => Some(Handle::Properties),
            Request::Artist => Some(Handle::Properties),
        }
    }

    /// What the host holds once the call has succeeded, where that is more
    /// than it held before.
    pub open spec fn yields(self) -> Option<Handle> {
        match self {
            Request::CurrentSession => Some(Handle::Session),
            Request::FetchMediaProperties => Some(Handle::PendingFetch),
            Request::AwaitMediaProperties => Some(Handle::Properties),
            _ => None,
        }
    }
}

/// Whether a host that held what `asked` needs, and answered it with `reply`,
/// holds what the call `next` needs: `next` needs nothing, or what `asked`
/// needed, or what `asked` has just produced.
pub open spec fn grounded(asked: Request, reply: ReplyView, next: Request) -> bool {
    ||| next.needs() is None
    ||| next.needs() == asked.needs()
    ||| reply == ReplyView::Ready && next.needs() == asked.yields()
}

/// The outcome of one native call.
#[derive(Debug, PartialEq, Eq)]
pub enum Reply {
    /// The call failed. The text is the platform's description of the failure.
    Failed(String),
    /// The call succeeded and the host holds what it produced.
    Ready,
    /// A duration in the platform's ticks.
    Ticks(i64),
    /// A native playback-status code.
    Status(i32),
    /// Native text: UTF-16 code units, surrogates not necessarily paired.
    Text(Vec<u16>),
}

/// What a [`Reply`] holds, as mathematical values.
pub ghost enum ReplyView {
    Failed(Seq<char>),
    Ready,
    Ticks(i64),
    Status(i32),
    Text(Seq<u16>),
}

impl View for Reply {
    type V = ReplyView;

    open spec fn view(&self) -> ReplyView {
        match self {
            Reply::Failed(detail) => ReplyView::Failed(detail@),
            Reply::Ready => ReplyView::Ready,
            Reply::Ticks(ticks) => ReplyView::Ticks(*ticks),
            Reply::Status(code) => ReplyView::Status(*code),
            Reply::Text(units) => ReplyView::Text(units@),
        }
    }
}

impl Clone for Reply {
    fn clone(&self) -> (copy: Reply)
        ensures
            copy@ == self@,
    {
        match self {
            Reply::Failed(detail) => Reply::Failed(detail.clone()),
            Reply::Ready => Reply::Ready,
            Reply::Ticks(ticks) => Reply::Ticks(*ticks),
            Reply::Status(code) => Reply::Status(*code),
            Reply::Text(units) => Reply::Text(units.clone()),
        }
    }
}

impl ReplyView {
    /// The description of the failure that the reply stands for, where it is
    /// not the kind of reply that was asked for. A reply of another kind
    /// counts as a failed call.
    pub open spec fn failure(self) -> Seq<char> {
        match self {
            ReplyView::Failed(detail) => detail,
            _ => "unexpected reply"@,
        }
    }

    /// The reply, read as the answer to a call that produces something for
    /// the host to keep.
    pub open spec fn ready(self) -> Result<(), Seq<char>> {
        match self {
            ReplyView::Ready => Ok(()),
            _ => Err(self.failure()),
        }
    }

    /// The reply, read as the answer to a call that produces a duration.
    pub open spec fn ticks(self) -> Result<i64, Seq<char>> {
        match self {
            ReplyView::Ticks(ticks) => Ok(ticks),
            _ => Err(self.failure()),
        }
    }

    /// The reply, read as the answer to a call that produces a status code.
    pub open spec fn status(self) -> Result<i32, Seq<char>> {
        match self {
            ReplyView::Status(code) => Ok(code),
            _ => Err(self.failure()),
        }
    }

    /// The reply, read as the answer to a call that produces text.
    pub open spec fn text(self) -> Result<Seq<u16>, Seq<char>> {
        match self {
            ReplyView::Text(units) => Ok(units),
            _ => Err(self.failure()),
        }
    }
}

impl Reply {
    /// The description of the failure that the reply stands for.
    fn into_failure(self) -> (detail: String)
        ensures
            detail@ == self@.failure(),
    {
        match self {
            Reply::Failed(detail) => detail,
            _ => String::from_str("unexpected reply"),
        }
    }

    /// Reads the reply as the answer to a call that produces something for
    /// the host to keep.
    pub fn into_ready(self) -> (read: Result<(), String>)
        ensures
            match read {
                Ok(()) => self@.ready() == Ok::<(), Seq<char>>(()),
                Err(detail) => self@.ready() == Err::<(), Seq<char>>(detail@),
            },
    {
        match self {
            Reply::Ready => Ok(()),
            other => Err(other.into_failure()),
        }
    }

    /// Reads the reply as the answer to a call that produces a duration.
    pub fn into_ticks(self) -> (read: Result<i64, String>)
        ensures
            match read {
                Ok(ticks) => self@.ticks() == Ok::<i64, Seq<char>>(ticks),
                Err(detail) => self@.ticks() == Err::<i64, Seq<char>>(detail@),
            },
    {
        match self {
            Reply::Ticks(ticks) => Ok(ticks),
            other => Err(other.into_failure()),
        }
    }

    /// Reads the reply as the answer to a call that produces a status code.
    pub fn into_status(self) -> (read: Result<i32, String>)
        ensures
            match read {
                Ok(code) => self@.status() == Ok::<i32, Seq<char>>(code),
                Err(detail) => self@.status() == Err::<i32, Seq<char>>(detail@),
            },
    {
        match self {
            Reply::Status(code) => Ok(code),
            other => Err(other.into_failure()),
        }
    }

    /// Reads the reply as the answer to a call that produces text.
    pub fn into_text(self) -> (read: Result<Vec<u16>, String>)
        ensures
            match read {
                Ok(units) => self@.text() == Ok::<Seq<u16>, Seq<char>>(units@),
                Err(detail) => self@.text() == Err::<Seq<u16>, Seq<char>>(detail@),
            },
    {
        match self {
            Reply::Text(units) => Ok(units),
            other => Err(other.into_failure()),
        }
    }
}

} // verus!
