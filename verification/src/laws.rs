//! What holds of the queries whatever the platform answers.
//!
//! Each law speaks of a platform that does not change while it is queried:
//! a host that gives the same answer whenever it is asked the same call.

use crate::error::PlayerErrorView;
use crate::metadata::{length_of_ticks, MetadataView};
use crate::progress::ProgressView;
use crate::native::{grounded, ReplyView, Request};
use crate::queries::metadata::MetadataQueryView;
use crate::queries::name::{fallback_name, NameQuery};
use crate::queries::position::PositionQuery;
use crate::queries::progress::ProgressQueryView;
use crate::queries::properties::PropertiesQuery;
use crate::queries::status::StatusQuery;
use crate::queries::{Host, Step};
use crate::status::{status_of_code, PlaybackStatus, NATIVE_PAUSED, NATIVE_PLAYING};
use crate::steady::{
    bundle, has_session, lemma_metadata_run, lemma_name_run, lemma_position_run,
    lemma_progress_run, lemma_properties_run, lemma_status_run,
};
use crate::text::decode_utf16_lossy;
use vstd::prelude::*;

verus! {

/// With no current session the player is stopped, at position zero and named
/// by the fallback, and none of the three queries fails.
pub proof fn lemma_no_session_gives_defaults(host: Host)
    requires
        !has_session(host),
    ensures
        StatusQuery::Session.run(host) == Ok::<PlaybackStatus, PlayerErrorView>(
            PlaybackStatus::Stopped,
        ),
        PositionQuery::Session.run(host) == Ok::<i64, PlayerErrorView>(0),
        NameQuery::Session.run(host) == fallback_name(),
{
    lemma_status_run(host);
    lemma_position_run(host);
    lemma_name_run(host);
}

/// With a current session whose native status can be read, the status is the
/// one that the native code stands for: playing for playing, paused for
/// paused, stopped for every other code.
pub proof fn lemma_status_follows_native_code(host: Host, code: i32)
    requires
        has_session(host),
        host(Request::PlaybackStatus) == ReplyView::Status(code),
    ensures
        StatusQuery::Session.run(host) == Ok::<PlaybackStatus, PlayerErrorView>(
            status_of_code(code),
        ),
        code == NATIVE_PLAYING ==> status_of_code(code) == PlaybackStatus::Playing,
        code == NATIVE_PAUSED ==> status_of_code(code) == PlaybackStatus::Paused,
        code != NATIVE_PLAYING && code != NATIVE_PAUSED ==> status_of_code(code)
            == PlaybackStatus::Stopped,
{
    lemma_status_run(host);
}

/// With a current session whose timeline can be read, the position is the
/// platform's value, unchanged.
pub proof fn lemma_position_is_verbatim(host: Host, ticks: i64)
    requires
        has_session(host),
        host(Request::TimelinePosition) == ReplyView::Ticks(ticks),
    ensures
        PositionQuery::Session.run(host) == Ok::<i64, PlayerErrorView>(ticks),
{
    lemma_position_run(host);
}

/// With a current session whose timeline or playback state cannot be read,
/// position and status fail with the platform's failure and give no default.
pub proof fn lemma_unreadable_session_fails(host: Host)
    requires
        has_session(host),
    ensures
        !(host(Request::TimelinePosition) is Ticks) ==> PositionQuery::Session.run(host)
            == Err::<i64, PlayerErrorView>(PlayerErrorView::Platform),
        !(host(Request::PlaybackStatus) is Status) ==> StatusQuery::Session.run(host) == Err::<
            PlaybackStatus,
            PlayerErrorView,
        >(PlayerErrorView::Platform),
{
    lemma_status_run(host);
    lemma_position_run(host);
}

/// The name query gives the fallback whenever the identifier cannot be had,
/// for whatever reason, and the decoded identifier whenever it can.
pub proof fn lemma_name_absorbs_every_failure(host: Host)
    ensures
        !has_session(host) || !(host(Request::SourceApp) is Text) ==> NameQuery::Session.run(host)
            == fallback_name(),
        has_session(host) && host(Request::SourceApp) is Text ==> NameQuery::Session.run(host)
            == decode_utf16_lossy(host(Request::SourceApp)->Text_0),
{
    lemma_name_run(host);
}

/// The progress query against a platform that does not change gives what the
/// metadata, position and status queries give against the same platform, put
/// together.
pub proof fn lemma_progress_bundles_the_three(host: Host)
    ensures
        ProgressQueryView::first().run(host) == bundle(
            MetadataQueryView::Session.run(host),
            PositionQuery::Session.run(host),
            StatusQuery::Session.run(host),
        ),
        ProgressQueryView::first().run(host) matches Ok(progress) ==> {
            &&& MetadataQueryView::Session.run(host) == Ok::<MetadataView, PlayerErrorView>(
                progress.metadata,
            )
            &&& PositionQuery::Session.run(host) == Ok::<i64, PlayerErrorView>(progress.position)
            &&& StatusQuery::Session.run(host) == Ok::<PlaybackStatus, PlayerErrorView>(
                progress.status,
            )
        },
{
    lemma_progress_run(host);
    lemma_metadata_run(host);
    lemma_position_run(host);
    lemma_status_run(host);
}

/// Where the media properties cannot be fetched although a session is
/// current, the metadata query fails. It gives no default in their place: its
/// failure is that of the fetch, or that of the timeline where that could not
/// be read either.
pub proof fn lemma_failed_fetch_fails_metadata(host: Host)
    requires
        has_session(host),
        host(Request::FetchMediaProperties) != ReplyView::Ready || host(
            Request::AwaitMediaProperties,
        ) != ReplyView::Ready,
    ensures
        PropertiesQuery::Session.run(host) is Err,
        MetadataQueryView::Session.run(host) is Err,
        host(Request::TimelineEndTime) is Ticks ==> MetadataQueryView::Session.run(host) == Err::<
            MetadataView,
            PlayerErrorView,
        >(PropertiesQuery::Session.run(host)->Err_0),
        !(host(Request::TimelineEndTime) is Ticks) ==> MetadataQueryView::Session.run(host)
            == Err::<MetadataView, PlayerErrorView>(PlayerErrorView::Platform),
{
    lemma_properties_run(host);
    lemma_metadata_run(host);
}

/// With no current session the metadata is that of an unknown track, with
/// an empty title, no artists and length zero. That nothing is playing is
/// not a failure, though the fetch of the media properties alone would fail.
pub proof fn lemma_no_session_gives_unknown_metadata(host: Host)
    requires
        !has_session(host),
    ensures
        MetadataQueryView::Session.run(host) == Ok::<MetadataView, PlayerErrorView>(
            MetadataView::unknown(),
        ),
        PropertiesQuery::Session.run(host) == Err::<(), PlayerErrorView>(
            PlayerErrorView::NoCurrentSession(host(Request::CurrentSession).failure()),
        ),
{
    lemma_metadata_run(host);
    lemma_properties_run(host);
}

/// With no current session the progress is that of an idle player: the
/// metadata of an unknown track, position zero, stopped.
pub proof fn lemma_no_session_gives_idle_progress(host: Host)
    requires
        !has_session(host),
    ensures
        ProgressQueryView::first().run(host) == Ok::<ProgressView, PlayerErrorView>(
            ProgressView {
                metadata: MetadataView::unknown(),
                position: 0,
                status: PlaybackStatus::Stopped,
            },
        ),
{
    lemma_progress_run(host);
}

/// Where the session is gone by the time the media properties are to be
/// fetched, whatever came before, the metadata query ends there without
/// failure: it gives the length that it has, with an empty title and no
/// artists.
pub proof fn lemma_session_gone_at_the_fetch(length: u64, reply: ReplyView)
    requires
        reply != ReplyView::Ready,
    ensures
        (MetadataQueryView::Properties { length, fetch: PropertiesQuery::Session }).after(reply)
            == Step::<MetadataQueryView, Result<MetadataView, PlayerErrorView>>::Done(
            Ok(MetadataView::untitled(length)),
        ),
{
}

/// Where every native call succeeds, the metadata is the decoded title, the
/// decoded artist and the end time of the timeline as the length. Text that
/// is not well-formed does not fail the query.
pub proof fn lemma_metadata_of_a_session(
    host: Host,
    ticks: i64,
    title: Seq<u16>,
    artist: Seq<u16>,
)
    requires
        has_session(host),
        host(Request::TimelineEndTime) == ReplyView::Ticks(ticks),
        host(Request::FetchMediaProperties) == ReplyView::Ready,
        host(Request::AwaitMediaProperties) == ReplyView::Ready,
        host(Request::Title) == ReplyView::Text(title),
        host(Request::Artist) == ReplyView::Text(artist),
    ensures
        MetadataQueryView::Session.run(host) == Ok::<MetadataView, PlayerErrorView>(
            MetadataView {
                title: decode_utf16_lossy(title),
                artists: decode_utf16_lossy(artist),
                length: length_of_ticks(ticks),
            },
        ),
{
    lemma_metadata_run(host);
}

/// Every query ends: each reply either ends it or leaves it with fewer native
/// calls to make, and from its first state no query makes more than eleven.
pub proof fn lemma_queries_end(reply: ReplyView)
    ensures
        StatusQuery::Session.calls_left() == 2,
        PositionQuery::Session.calls_left() == 2,
        NameQuery::Session.calls_left() == 2,
        PropertiesQuery::Session.calls_left() == 3,
        MetadataQueryView::Session.calls_left() == 7,
        ProgressQueryView::first().calls_left() == 11,
        forall|query: StatusQuery|
            #[trigger] query.after(reply) matches Step::Next(next) ==> next.calls_left()
                < query.calls_left(),
        forall|query: PositionQuery|
            #[trigger] query.after(reply) matches Step::Next(next) ==> next.calls_left()
                < query.calls_left(),
        forall|query: NameQuery|
            #[trigger] query.after(reply) matches Step::Next(next) ==> next.calls_left()
                < query.calls_left(),
        forall|query: PropertiesQuery|
            #[trigger] query.after(reply) matches Step::Next(next) ==> next.calls_left()
                < query.calls_left(),
        forall|query: MetadataQueryView|
            #[trigger] query.after(reply) matches Step::Next(next) ==> next.calls_left()
                < query.calls_left(),
        forall|query: ProgressQueryView|
            #[trigger] query.after(reply) matches Step::Next(next) ==> next.calls_left()
                < query.calls_left(),
{
}

/// No query asks for a call on something that the host does not hold: each
/// query begins with a call that needs nothing, and each call after that
/// needs nothing, or what the call before it needed, or what that call has
/// just produced.
pub proof fn lemma_calls_are_grounded(reply: ReplyView)
    ensures
        StatusQuery::Session.wants().needs() is None,
        PositionQuery::Session.wants().needs() is None,
        NameQuery::Session.wants().needs() is None,
        PropertiesQuery::Session.wants().needs() is None,
        MetadataQueryView::Session.wants().needs() is None,
        ProgressQueryView::first().wants().needs() is None,
        forall|query: StatusQuery|
            #[trigger] query.after(reply) matches Step::Next(next) ==> grounded(
                query.wants(),
                reply,
                next.wants(),
            ),
        forall|query: PositionQuery|
            #[trigger] query.after(reply) matches Step::Next(next) ==> grounded(
                query.wants(),
                reply,
                next.wants(),
            ),
        forall|query: NameQuery|
            #[trigger] query.after(reply) matches Step::Next(next) ==> grounded(
                query.wants(),
                reply,
                next.wants(),
            ),
        forall|query: PropertiesQuery|
            #[trigger] query.after(reply) matches Step::Next(next) ==> grounded(
                query.wants(),
                reply,
                next.wants(),
            ),
        forall|query: MetadataQueryView|
            #[trigger] query.after(reply) matches Step::Next(next) ==> grounded(
                query.wants(),
                reply,
                next.wants(),
            ),
        forall|query: ProgressQueryView|
            #[trigger] query.after(reply) matches Step::Next(next) ==> grounded(
                query.wants(),
                reply,
                next.wants(),
            ),
{
}

} // verus!
