use apex_windows::{
    FetchStage, Metadata, MetadataQuery, NameQuery, PlaybackStatus, Player, PlayerError,
    PositionQuery, Progress, ProgressQuery, PropertiesQuery, Reply, Request, StatusQuery, Step,
};

/// A platform with a fixed answer to each native call, which notes the calls
/// that it is asked.
struct Platform {
    session: Reply,
    end_time: Reply,
    position: Reply,
    status: Reply,
    source_app: Reply,
    fetch: Reply,
    completion: Reply,
    title: Reply,
    artist: Reply,
    asked: Vec<Request>,
}

fn text(text: &str) -> Reply {
    Reply::Text(text.encode_utf16().collect())
}

fn failed(detail: &str) -> Reply {
    Reply::Failed(String::from(detail))
}

impl Platform {
    fn playing() -> Platform {
        Platform {
            session: Reply::Ready,
            end_time: Reply::Ticks(2_450_000_000),
            position: Reply::Ticks(615_000_000),
            status: Reply::Status(4),
            source_app: text("Spotify.exe"),
            fetch: Reply::Ready,
            completion: Reply::Ready,
            title: text("Teardrop"),
            artist: text("Massive Attack"),
            asked: Vec::new(),
        }
    }

    fn idle() -> Platform {
        Platform { session: failed("Element not found."), ..Platform::playing() }
    }

    fn answer(&mut self, request: Request) -> Reply {
        self.asked.push(request);
        match request {
            Request::CurrentSession => self.session.clone(),
            Request::TimelineEndTime => self.end_time.clone(),
            Request::TimelinePosition => self.position.clone(),
            Request::PlaybackStatus => self.status.clone(),
            Request::SourceApp => self.source_app.clone(),
            Request::FetchMediaProperties => self.fetch.clone(),
            Request::AwaitMediaProperties => self.completion.clone(),
            Request::Title => self.title.clone(),
            Request::Artist => self.artist.clone(),
        }
    }

    fn status(&mut self) -> Result<PlaybackStatus, PlayerError> {
        let mut query = StatusQuery::Session;
        loop {
            match query.advance(self.answer(query.pending())) {
                Step::Next(next) => query = next,
                Step::Done(outcome) => return outcome,
            }
        }
    }

    fn position(&mut self) -> Result<i64, PlayerError> {
        let mut query = PositionQuery::Session;
        loop {
            match query.advance(self.answer(query.pending())) {
                Step::Next(next) => query = next,
                Step::Done(outcome) => return outcome,
            }
        }
    }

    fn name(&mut self) -> String {
        let mut query = NameQuery::Session;
        loop {
            match query.advance(self.answer(query.pending())) {
                Step::Next(next) => query = next,
                Step::Done(outcome) => return outcome,
            }
        }
    }

    fn properties(&mut self) -> Result<(), PlayerError> {
        let mut query = PropertiesQuery::Session;
        loop {
            match query.advance(self.answer(query.pending())) {
                Step::Next(next) => query = next,
                Step::Done(outcome) => return outcome,
            }
        }
    }

    fn metadata(&mut self) -> Result<Metadata, PlayerError> {
        let mut query = MetadataQuery::Session;
        loop {
            let request = query.pending();
            match query.advance(self.answer(request)) {
                Step::Next(next) => query = next,
                Step::Done(outcome) => return outcome,
            }
        }
    }

    fn progress(&mut self) -> Result<Progress, PlayerError> {
        let mut query = ProgressQuery::Metadata { query: MetadataQuery::Session };
        loop {
            let request = query.pending();
            match query.advance(self.answer(request)) {
                Step::Next(next) => query = next,
                Step::Done(outcome) => return outcome,
            }
        }
    }
}

fn teardrop() -> Metadata {
    Metadata::new(String::from("Teardrop"), String::from("Massive Attack"), 2_450_000_000)
}

// Status

#[test]
fn status_without_a_session_is_stopped() {
    let mut platform = Platform::idle();
    assert_eq!(platform.status(), Ok(PlaybackStatus::Stopped));
    assert_eq!(platform.asked, vec![Request::CurrentSession]);
}

#[test]
fn status_of_a_playing_session_is_playing() {
    let mut platform = Platform::playing();
    assert_eq!(platform.status(), Ok(PlaybackStatus::Playing));
    assert_eq!(platform.asked, vec![Request::CurrentSession, Request::PlaybackStatus]);
}

#[test]
fn status_of_a_paused_session_is_paused() {
    let mut platform = Platform { status: Reply::Status(5), ..Platform::playing() };
    assert_eq!(platform.status(), Ok(PlaybackStatus::Paused));
}

#[test]
fn status_of_a_session_in_any_other_state_is_stopped() {
    for code in [0, 1, 2, 3, 6, 42, -1, i32::MIN, i32::MAX] {
        let mut platform = Platform { status: Reply::Status(code), ..Platform::playing() };
        assert_eq!(platform.status(), Ok(PlaybackStatus::Stopped));
    }
}

#[test]
fn status_fails_where_the_session_cannot_be_read() {
    let mut platform = Platform { status: failed("RPC server unavailable"), ..Platform::playing() };
    assert_eq!(platform.status(), Err(PlayerError::Platform));
}

// Position

#[test]
fn position_without_a_session_is_zero() {
    let mut platform = Platform::idle();
    assert_eq!(platform.position(), Ok(0));
    assert_eq!(platform.asked, vec![Request::CurrentSession]);
}

#[test]
fn position_is_handed_on_as_it_is() {
    for ticks in [0, 1, 615_000_000, -1, -10_000_000, i64::MAX, i64::MIN] {
        let mut platform = Platform { position: Reply::Ticks(ticks), ..Platform::playing() };
        assert_eq!(platform.position(), Ok(ticks));
    }
}

#[test]
fn position_may_lie_beyond_the_end_of_the_track() {
    let mut platform = Platform {
        end_time: Reply::Ticks(100),
        position: Reply::Ticks(5_000),
        ..Platform::playing()
    };
    assert_eq!(platform.position(), Ok(5_000));
    assert_eq!(platform.asked, vec![Request::CurrentSession, Request::TimelinePosition]);
}

#[test]
fn position_fails_where_the_timeline_cannot_be_read() {
    let mut platform = Platform { position: failed("timeline gone"), ..Platform::playing() };
    assert_eq!(platform.position(), Err(PlayerError::Platform));
}

// Name

#[test]
fn name_without_a_session_is_the_fallback() {
    let mut platform = Platform::idle();
    assert_eq!(platform.name(), "windows-api");
    assert_eq!(platform.asked, vec![Request::CurrentSession]);
}

#[test]
fn name_is_the_identifier_of_the_source_application() {
    let mut platform = Platform::playing();
    assert_eq!(platform.name(), "Spotify.exe");
    assert_eq!(platform.asked, vec![Request::CurrentSession, Request::SourceApp]);
}

#[test]
fn name_is_the_fallback_where_the_identifier_cannot_be_read() {
    let mut platform = Platform { source_app: failed("no identifier"), ..Platform::playing() };
    assert_eq!(platform.name(), "windows-api");
}

#[test]
fn name_is_the_fallback_where_the_reply_is_of_another_kind() {
    let mut platform = Platform { source_app: Reply::Ticks(3), ..Platform::playing() };
    assert_eq!(platform.name(), "windows-api");
}

#[test]
fn name_with_text_that_is_not_well_formed_is_decoded_with_replacements() {
    let mut platform = Platform {
        source_app: Reply::Text(vec![0x0041, 0xD800, 0x0042]),
        ..Platform::playing()
    };
    assert_eq!(platform.name(), "A\u{FFFD}B");
}

#[test]
fn name_may_be_empty() {
    let mut platform = Platform { source_app: Reply::Text(Vec::new()), ..Platform::playing() };
    assert_eq!(platform.name(), "");
}

// Media properties

#[test]
fn properties_are_fetched_in_three_calls() {
    let mut platform = Platform::playing();
    assert_eq!(platform.properties(), Ok(()));
    assert_eq!(
        platform.asked,
        vec![
            Request::CurrentSession,
            Request::FetchMediaProperties,
            Request::AwaitMediaProperties
        ]
    );
}

#[test]
fn properties_without_a_session_fail_for_want_of_a_session() {
    let mut platform = Platform::idle();
    assert_eq!(
        platform.properties(),
        Err(PlayerError::NoCurrentSession(String::from("Element not found.")))
    );
    assert_eq!(platform.asked, vec![Request::CurrentSession]);
}

#[test]
fn properties_fail_where_the_fetch_is_refused() {
    let mut platform = Platform { fetch: failed("Access denied."), ..Platform::playing() };
    let outcome = platform.properties();
    assert_eq!(
        outcome,
        Err(PlayerError::PropertyFetchFailed(FetchStage::Requested, String::from("Access denied.")))
    );
    assert_eq!(outcome.unwrap_err().message(), "Couldn't get media properties: Access denied.");
    assert_eq!(platform.asked, vec![Request::CurrentSession, Request::FetchMediaProperties]);
}

#[test]
fn properties_fail_where_the_fetch_does_not_complete() {
    let mut platform = Platform { completion: failed("Canceled."), ..Platform::playing() };
    let outcome = platform.properties();
    assert_eq!(
        outcome,
        Err(PlayerError::PropertyFetchFailed(FetchStage::Awaited, String::from("Canceled.")))
    );
    assert_eq!(outcome.unwrap_err().message(), "Canceled.");
}

// Metadata

#[test]
fn metadata_of_a_session() {
    let mut platform = Platform::playing();
    let metadata = platform.metadata().unwrap();
    assert_eq!(metadata.title(), Ok(String::from("Teardrop")));
    assert_eq!(metadata.artists(), Ok(String::from("Massive Attack")));
    assert_eq!(metadata.length(), Ok(2_450_000_000));
    assert_eq!(metadata, teardrop());
}

#[test]
fn metadata_asks_for_the_timeline_first_and_resolves_the_session_twice() {
    let mut platform = Platform::playing();
    platform.metadata().unwrap();
    assert_eq!(
        platform.asked,
        vec![
            Request::CurrentSession,
            Request::TimelineEndTime,
            Request::CurrentSession,
            Request::FetchMediaProperties,
            Request::AwaitMediaProperties,
            Request::Title,
            Request::Artist,
        ]
    );
}

#[test]
fn metadata_without_a_session_is_that_of_an_unknown_track() {
    let mut platform = Platform::idle();
    let metadata = platform.metadata().unwrap();
    assert_eq!(metadata.title(), Ok(String::new()));
    assert_eq!(metadata.artists(), Ok(String::new()));
    assert_eq!(metadata.length(), Ok(0));
    assert_eq!(metadata, Metadata::default());
}

#[test]
fn metadata_without_a_session_skips_the_timeline_and_ends_at_the_fetch() {
    let mut platform = Platform::idle();
    assert_eq!(platform.metadata(), Ok(Metadata::default()));
    assert_eq!(platform.asked, vec![Request::CurrentSession, Request::CurrentSession]);
}

#[test]
fn metadata_has_length_zero_where_the_session_appears_only_after_the_timeline_was_due() {
    let mut query = MetadataQuery::Session;
    let mut replies = vec![
        failed("Element not found."),
        Reply::Ready,
        Reply::Ready,
        Reply::Ready,
        text("Teardrop"),
        text("Massive Attack"),
    ]
    .into_iter();
    let mut asked = Vec::new();
    let outcome = loop {
        asked.push(query.pending());
        match query.advance(replies.next().unwrap()) {
            Step::Next(next) => query = next,
            Step::Done(outcome) => break outcome,
        }
    };
    assert_eq!(
        outcome,
        Ok(Metadata::new(String::from("Teardrop"), String::from("Massive Attack"), 0))
    );
    assert_eq!(
        asked,
        vec![
            Request::CurrentSession,
            Request::CurrentSession,
            Request::FetchMediaProperties,
            Request::AwaitMediaProperties,
            Request::Title,
            Request::Artist,
        ]
    );
}

#[test]
fn metadata_keeps_its_length_where_the_session_is_gone_by_the_time_of_the_fetch() {
    let mut query = MetadataQuery::Session;
    let mut replies = vec![Reply::Ready, Reply::Ticks(10), failed("gone")].into_iter();
    let outcome = loop {
        match query.advance(replies.next().unwrap()) {
            Step::Next(next) => query = next,
            Step::Done(outcome) => break outcome,
        }
    };
    assert_eq!(outcome, Ok(Metadata::new(String::new(), String::new(), 10)));
}

#[test]
fn metadata_fails_where_the_timeline_cannot_be_read_and_fetches_nothing() {
    let mut platform = Platform { end_time: failed("timeline gone"), ..Platform::playing() };
    assert_eq!(platform.metadata(), Err(PlayerError::Platform));
    assert_eq!(platform.asked, vec![Request::CurrentSession, Request::TimelineEndTime]);
}

#[test]
fn metadata_fails_where_the_fetch_is_refused_and_gives_no_default() {
    let mut platform = Platform { fetch: failed("Access denied."), ..Platform::playing() };
    assert_eq!(
        platform.metadata(),
        Err(PlayerError::PropertyFetchFailed(FetchStage::Requested, String::from("Access denied.")))
    );
}

#[test]
fn metadata_fails_where_the_fetch_does_not_complete() {
    let mut platform = Platform { completion: failed("Canceled."), ..Platform::playing() };
    assert_eq!(
        platform.metadata(),
        Err(PlayerError::PropertyFetchFailed(FetchStage::Awaited, String::from("Canceled.")))
    );
    assert!(!platform.asked.contains(&Request::Title));
}

#[test]
fn metadata_fails_where_the_title_cannot_be_read() {
    let mut platform = Platform { title: failed("no title"), ..Platform::playing() };
    assert_eq!(platform.metadata(), Err(PlayerError::PropertyUnreadable(String::from("no title"))));
    assert!(!platform.asked.contains(&Request::Artist));
}

#[test]
fn metadata_fails_where_the_artist_cannot_be_read() {
    let mut platform = Platform { artist: failed("no artist"), ..Platform::playing() };
    assert_eq!(
        platform.metadata(),
        Err(PlayerError::PropertyUnreadable(String::from("no artist")))
    );
}

#[test]
fn metadata_with_text_that_is_not_well_formed_has_replacements_and_does_not_fail() {
    let mut platform = Platform {
        title: Reply::Text(vec![0x0054, 0xDC00, 0x0065]),
        artist: Reply::Text(vec![0xD83D]),
        ..Platform::playing()
    };
    let metadata = platform.metadata().unwrap();
    assert_eq!(metadata.title(), Ok(String::from("T\u{FFFD}e")));
    assert_eq!(metadata.artists(), Ok(String::from("\u{FFFD}")));
}

#[test]
fn metadata_with_empty_texts_is_not_a_failure() {
    let mut platform = Platform {
        title: Reply::Text(Vec::new()),
        artist: Reply::Text(Vec::new()),
        end_time: Reply::Ticks(0),
        ..Platform::playing()
    };
    assert_eq!(platform.metadata(), Ok(Metadata::default()));
}

#[test]
fn metadata_takes_the_end_time_as_the_length_without_a_change_of_unit() {
    for (ticks, length) in [(0i64, 0u64), (1, 1), (i64::MAX, 9_223_372_036_854_775_807), (-1, u64::MAX)] {
        let mut platform = Platform { end_time: Reply::Ticks(ticks), ..Platform::playing() };
        assert_eq!(platform.metadata().unwrap().length(), Ok(length));
    }
}

// Progress

#[test]
fn progress_is_metadata_position_and_status() {
    let mut platform = Platform::playing();
    let progress = platform.progress().unwrap();
    assert_eq!(
        progress,
        Progress { metadata: teardrop(), position: 615_000_000, status: PlaybackStatus::Playing }
    );
}

#[test]
fn progress_equals_the_three_queries_made_one_by_one() {
    let platforms = [
        Platform::playing(),
        Platform::idle(),
        Platform { status: Reply::Status(5), ..Platform::playing() },
        Platform { status: failed("x"), ..Platform::playing() },
        Platform { position: failed("x"), ..Platform::playing() },
        Platform { end_time: failed("x"), ..Platform::playing() },
        Platform { fetch: failed("x"), ..Platform::playing() },
        Platform { completion: failed("x"), ..Platform::playing() },
        Platform { title: failed("x"), ..Platform::playing() },
        Platform { artist: Reply::Ready, ..Platform::playing() },
    ];
    for mut platform in platforms {
        let together = platform.progress();
        let apart = match platform.metadata() {
            Err(error) => Err(error),
            Ok(metadata) => match platform.position() {
                Err(error) => Err(error),
                Ok(position) => match platform.status() {
                    Err(error) => Err(error),
                    Ok(status) => Ok(Progress { metadata, position, status }),
                },
            },
        };
        assert_eq!(together, apart);
    }
}

#[test]
fn progress_runs_the_three_queries_in_order() {
    let mut platform = Platform::playing();
    platform.progress().unwrap();
    assert_eq!(
        platform.asked,
        vec![
            Request::CurrentSession,
            Request::TimelineEndTime,
            Request::CurrentSession,
            Request::FetchMediaProperties,
            Request::AwaitMediaProperties,
            Request::Title,
            Request::Artist,
            Request::CurrentSession,
            Request::TimelinePosition,
            Request::CurrentSession,
            Request::PlaybackStatus,
        ]
    );
}

#[test]
fn progress_ends_with_the_first_failure() {
    let mut platform = Platform {
        position: failed("timeline gone"),
        status: failed("info gone"),
        ..Platform::playing()
    };
    assert_eq!(platform.progress(), Err(PlayerError::Platform));
    assert_eq!(platform.asked.last(), Some(&Request::TimelinePosition));
    assert!(!platform.asked.contains(&Request::PlaybackStatus));
}

#[test]
fn progress_without_a_session_is_that_of_an_idle_player() {
    let mut platform = Platform::idle();
    let progress = platform.progress().unwrap();
    assert_eq!(progress.metadata.title(), Ok(String::new()));
    assert_eq!(progress.metadata.artists(), Ok(String::new()));
    assert_eq!(progress.metadata.length(), Ok(0));
    assert_eq!(progress.position, 0);
    assert_eq!(progress.status, PlaybackStatus::Stopped);
    assert_eq!(
        platform.asked,
        vec![
            Request::CurrentSession,
            Request::CurrentSession,
            Request::CurrentSession,
            Request::CurrentSession,
        ]
    );
}

#[test]
fn a_missing_session_fails_the_fetch_alone_and_not_the_metadata() {
    let mut platform = Platform::idle();
    assert_eq!(
        platform.properties(),
        Err(PlayerError::NoCurrentSession(String::from("Element not found.")))
    );
    assert_eq!(platform.metadata(), Ok(Metadata::default()));
}

#[test]
fn progress_may_be_torn_where_the_platform_changes_in_between() {
    let mut query = ProgressQuery::Metadata { query: MetadataQuery::Session };
    let mut replies = vec![
        Reply::Ready,
        Reply::Ticks(100),
        Reply::Ready,
        Reply::Ready,
        Reply::Ready,
        text("Teardrop"),
        text("Massive Attack"),
        Reply::Ready,
        Reply::Ticks(7_000),
        failed("Element not found."),
    ]
    .into_iter();
    let outcome = loop {
        match query.advance(replies.next().unwrap()) {
            Step::Next(next) => query = next,
            Step::Done(outcome) => break outcome,
        }
    };
    let progress = outcome.unwrap();
    assert_eq!(progress.metadata.length(), Ok(100));
    assert_eq!(progress.position, 7_000);
    assert_eq!(progress.status, PlaybackStatus::Stopped);
}

// Replies of another kind than was asked for

#[test]
fn a_reply_of_another_kind_counts_as_a_failed_call() {
    let mut platform = Platform { session: Reply::Ticks(1), ..Platform::playing() };
    assert_eq!(platform.status(), Ok(PlaybackStatus::Stopped));
    assert_eq!(platform.position(), Ok(0));
    assert_eq!(
        platform.properties(),
        Err(PlayerError::NoCurrentSession(String::from("unexpected reply")))
    );
    let mut platform = Platform { status: Reply::Ticks(4), ..Platform::playing() };
    assert_eq!(platform.status(), Err(PlayerError::Platform));
    let mut platform = Platform { position: Reply::Status(4), ..Platform::playing() };
    assert_eq!(platform.position(), Err(PlayerError::Platform));
    let mut platform = Platform { title: Reply::Ready, ..Platform::playing() };
    assert_eq!(
        platform.metadata(),
        Err(PlayerError::PropertyUnreadable(String::from("unexpected reply")))
    );
    let mut platform = Platform { fetch: text("x"), ..Platform::playing() };
    assert_eq!(
        platform.metadata(),
        Err(PlayerError::PropertyFetchFailed(
            FetchStage::Requested,
            String::from("unexpected reply")
        ))
    );
}

#[test]
fn reading_a_reply_gives_its_value_or_its_failure() {
    assert_eq!(Reply::Ready.into_ready(), Ok(()));
    assert_eq!(failed("a").into_ready(), Err(String::from("a")));
    assert_eq!(Reply::Ticks(-5).into_ticks(), Ok(-5));
    assert_eq!(Reply::Status(4).into_ticks(), Err(String::from("unexpected reply")));
    assert_eq!(Reply::Status(4).into_status(), Ok(4));
    assert_eq!(failed("b").into_status(), Err(String::from("b")));
    assert_eq!(text("hi").into_text(), Ok(vec![0x68, 0x69]));
    assert_eq!(Reply::Ready.into_text(), Err(String::from("unexpected reply")));
    assert_eq!(text("hi").clone(), text("hi"));
}

// The backend

#[test]
fn a_backend_exists_where_the_manager_was_acquired() {
    let player = Player::new(Ok::<&str, String>("manager")).unwrap();
    assert_eq!(*player.session_manager(), "manager");
}

#[test]
fn no_backend_exists_where_the_platform_is_unavailable() {
    let made = Player::<u8>::new(Err(String::from("Class not registered")));
    assert!(matches!(made, Err(PlayerError::PlatformUnavailable)));
    assert_eq!(made.err().unwrap().message(), "Windows");
}

#[test]
fn the_backend_tells_a_missing_session_from_a_session() {
    let player = Player::new(Ok::<u8, String>(0)).unwrap();
    assert_eq!(player.current_session(Reply::Ready), Ok(()));
    assert_eq!(
        player.current_session(failed("Element not found.")),
        Err(PlayerError::NoCurrentSession(String::from("Element not found.")))
    );
}

#[test]
fn the_backend_starts_each_query_in_its_first_state() {
    let player = Player::new(Ok::<u8, String>(0)).unwrap();
    assert_eq!(player.playback_status(), StatusQuery::Session);
    assert_eq!(player.position(), PositionQuery::Session);
    assert_eq!(player.name(), NameQuery::Session);
    assert_eq!(player.media_properties(), PropertiesQuery::Session);
    assert_eq!(player.metadata(), MetadataQuery::Session);
    assert_eq!(player.progress(), ProgressQuery::Metadata { query: MetadataQuery::Session });
    assert_eq!(player.metadata().pending(), Request::CurrentSession);
    assert_eq!(player.progress().pending(), Request::CurrentSession);
}

#[test]
fn queries_keep_nothing_from_one_to_the_next() {
    let player = Player::new(Ok::<u8, String>(0)).unwrap();
    let mut platform = Platform::playing();
    let first = platform.position();
    platform.position = Reply::Ticks(9);
    let second = platform.position();
    assert_eq!(first, Ok(615_000_000));
    assert_eq!(second, Ok(9));
    assert_eq!(player.position(), PositionQuery::Session);
}
