use rsyslog_ssh_geoip_pipeline::connection::{Action, CloseReason, Event, HandlerState, SkipReason};
use rsyslog_ssh_geoip_pipeline::geoip::{Coords, EncodeError, ResolutionError, SpatialEncoding};
use rsyslog_ssh_geoip_pipeline::pipeline::DecodePolicy;
use rsyslog_ssh_geoip_pipeline::record::NO_MATCH;
use rsyslog_ssh_geoip_pipeline::storage::StorageError;
use rsyslog_ssh_geoip_pipeline::{AuthAttempt, AuthAttemptRecord, Pipeline};
use s2::s1::Deg;

fn cells(level: usize) -> Pipeline {
    Pipeline::new(SpatialEncoding::S2Cell, level, None, DecodePolicy::SkipLine).unwrap()
}

fn geohashes(length: usize) -> Pipeline {
    Pipeline::new(SpatialEncoding::Geohash, length, None, DecodePolicy::SkipLine).unwrap()
}

fn closing() -> Pipeline {
    Pipeline::new(SpatialEncoding::S2Cell, 4, None, DecodePolicy::CloseConnection).unwrap()
}

fn attempt(username: &str, ip: &str, port: &str) -> AuthAttempt {
    AuthAttempt { username: username.to_string(), ip: ip.to_string(), port: port.to_string() }
}

fn record(token: &str, username: &str, ip: &str) -> AuthAttemptRecord {
    AuthAttemptRecord {
        token: token.to_string(),
        username: username.to_string(),
        ip: ip.to_string(),
    }
}

fn san_francisco() -> Coords {
    Coords::new(Deg(37.7749), Deg(-122.4194))
}

fn drive(pipeline: &Pipeline, events: Vec<Event>) -> (HandlerState, Vec<Action>) {
    let (mut state, first) = pipeline.start();
    let mut actions = vec![first];
    for event in events {
        let (next, action) = pipeline.step(state, event);
        state = next;
        actions.push(action);
    }
    (state, actions)
}

fn written(actions: &[Action]) -> Vec<&AuthAttemptRecord> {
    let mut records = Vec::new();
    for action in actions {
        if let Action::Write(record) = action {
            records.push(record);
        }
    }
    records
}

#[test]
fn connection_begins_by_reading() {
    let (state, action) = cells(4).start();
    assert_eq!(state, HandlerState::AwaitingLine);
    assert_eq!(action, Action::ReadLine);
}

#[test]
fn line_is_handed_to_the_decoder_without_its_terminator() {
    let line = "{\"username\":\"root\",\"ip\":\"8.8.8.8\",\"port\":\"22\"}\n".to_string();
    let (state, action) = cells(4).step(HandlerState::AwaitingLine, Event::Line(line));
    assert_eq!(state, HandlerState::Decoding);
    assert_eq!(
        action,
        Action::Decode("{\"username\":\"root\",\"ip\":\"8.8.8.8\",\"port\":\"22\"}".to_string())
    );
}

#[test]
fn end_of_stream_closes() {
    let (state, action) = cells(4).step(HandlerState::AwaitingLine, Event::EndOfStream);
    assert_eq!(state, HandlerState::Closed(CloseReason::EndOfStream));
    assert_eq!(action, Action::Close(CloseReason::EndOfStream));
}

#[test]
fn failed_read_closes() {
    let (state, action) = cells(4).step(HandlerState::AwaitingLine, Event::ReadFailed);
    assert_eq!(state, HandlerState::Closed(CloseReason::ReadFailed));
    assert_eq!(action, Action::Close(CloseReason::ReadFailed));
}

#[test]
fn attempt_with_an_address_is_resolved() {
    let (state, action) =
        cells(4).step(HandlerState::Decoding, Event::Decoded(attempt("root", "8.8.8.8", "22")));
    assert_eq!(state, HandlerState::Resolving(attempt("root", "8.8.8.8", "22")));
    assert_eq!(action, Action::Resolve("8.8.8.8".to_string()));
}

#[test]
fn attempt_without_an_address_is_skipped() {
    assert_eq!(NO_MATCH, "**NO MATCH**");
    for (username, port) in [("root", "22"), ("", ""), ("**NO MATCH**", "65535")] {
        let (state, action) = cells(4)
            .step(HandlerState::Decoding, Event::Decoded(attempt(username, "**NO MATCH**", port)));
        assert_eq!(state, HandlerState::AwaitingLine);
        assert_eq!(action, Action::SkipLine(SkipReason::NoMatch));
    }
}

#[test]
fn only_the_exact_sentinel_is_no_address() {
    for ip in ["**NO MATCH** ", "**no match**", "NO MATCH", ""] {
        let (state, action) =
            cells(4).step(HandlerState::Decoding, Event::Decoded(attempt("root", ip, "22")));
        assert_eq!(state, HandlerState::Resolving(attempt("root", ip, "22")));
        assert_eq!(action, Action::Resolve(ip.to_string()));
    }
}

#[test]
fn malformed_line_is_skipped_where_the_pipeline_skips() {
    let (state, action) = cells(4).step(HandlerState::Decoding, Event::DecodeFailed);
    assert_eq!(state, HandlerState::AwaitingLine);
    assert_eq!(action, Action::SkipLine(SkipReason::DecodeFailed));
}

#[test]
fn malformed_line_closes_where_the_pipeline_closes() {
    let (state, action) = closing().step(HandlerState::Decoding, Event::DecodeFailed);
    assert_eq!(state, HandlerState::Closed(CloseReason::DecodeFailed));
    assert_eq!(action, Action::Close(CloseReason::DecodeFailed));
}

#[test]
fn located_attempt_is_written_with_its_cell() {
    let (state, action) = cells(4).step(
        HandlerState::Resolving(attempt("root", "8.8.8.8", "22")),
        Event::Resolved(san_francisco()),
    );
    assert_eq!(state, HandlerState::Writing);
    assert_eq!(action, Action::Write(record("809", "root", "8.8.8.8")));
}

#[test]
fn located_attempt_is_written_with_its_geohash() {
    let (state, action) = geohashes(5).step(
        HandlerState::Resolving(attempt("admin", "1.1.1.1", "2222")),
        Event::Resolved(san_francisco()),
    );
    assert_eq!(state, HandlerState::Writing);
    assert_eq!(action, Action::Write(record("9q8yy", "admin", "1.1.1.1")));
}

#[test]
fn failed_resolution_skips_the_line() {
    for e in [
        ResolutionError::InvalidAddress,
        ResolutionError::NoLocation,
        ResolutionError::NoLatitude,
        ResolutionError::NoLongitude,
        ResolutionError::Backend,
    ] {
        let (state, action) = cells(4).step(
            HandlerState::Resolving(attempt("root", "8.8.8.8", "22")),
            Event::ResolveFailed(e),
        );
        assert_eq!(state, HandlerState::AwaitingLine);
        assert_eq!(action, Action::SkipLine(SkipReason::ResolutionFailed(e)));
    }
}

#[test]
fn failed_encoding_skips_the_line() {
    let (state, action) = geohashes(5).step(
        HandlerState::Resolving(attempt("root", "8.8.8.8", "22")),
        Event::Resolved(Coords::new(Deg(91.0), Deg(0.0))),
    );
    assert_eq!(state, HandlerState::AwaitingLine);
    assert_eq!(
        action,
        Action::SkipLine(SkipReason::EncodingFailed(EncodeError::InvalidCoordinateRange))
    );
}

#[test]
fn finished_write_reads_on() {
    let (state, action) = cells(4).step(HandlerState::Writing, Event::Written);
    assert_eq!(state, HandlerState::AwaitingLine);
    assert_eq!(action, Action::ReadLine);
}

#[test]
fn failed_write_closes() {
    for e in [
        StorageError::MalformedPoint,
        StorageError::InvalidCredentials,
        StorageError::UnknownDatabase,
        StorageError::UnknownRetentionPolicy,
        StorageError::Communication,
        StorageError::Other,
    ] {
        let (state, action) = cells(4).step(HandlerState::Writing, Event::WriteFailed(e));
        assert_eq!(state, HandlerState::Closed(CloseReason::WriteFailed(e)));
        assert_eq!(action, Action::Close(CloseReason::WriteFailed(e)));
    }
}

#[test]
fn closed_connection_stays_closed() {
    let pipeline = cells(4);
    for reason in [
        CloseReason::EndOfStream,
        CloseReason::ReadFailed,
        CloseReason::DecodeFailed,
        CloseReason::WriteFailed(StorageError::Communication),
        CloseReason::UnexpectedEvent,
    ] {
        let events = vec![
            Event::Line("x\n".to_string()),
            Event::EndOfStream,
            Event::ReadFailed,
            Event::Decoded(attempt("root", "8.8.8.8", "22")),
            Event::DecodeFailed,
            Event::Resolved(san_francisco()),
            Event::ResolveFailed(ResolutionError::Backend),
            Event::Written,
            Event::WriteFailed(StorageError::Other),
        ];
        for event in events {
            let (state, action) = pipeline.step(HandlerState::Closed(reason), event);
            assert_eq!(state, HandlerState::Closed(reason));
            assert_eq!(action, Action::Close(reason));
        }
    }
}

#[test]
fn what_was_not_asked_for_closes() {
    let pipeline = cells(4);
    let (state, action) = pipeline.step(HandlerState::AwaitingLine, Event::Written);
    assert_eq!(state, HandlerState::Closed(CloseReason::UnexpectedEvent));
    assert_eq!(action, Action::Close(CloseReason::UnexpectedEvent));
    let (state, _) = pipeline.step(HandlerState::Decoding, Event::Line("x".to_string()));
    assert_eq!(state, HandlerState::Closed(CloseReason::UnexpectedEvent));
    let (state, _) = pipeline
        .step(HandlerState::Resolving(attempt("root", "8.8.8.8", "22")), Event::DecodeFailed);
    assert_eq!(state, HandlerState::Closed(CloseReason::UnexpectedEvent));
    let (state, _) = pipeline.step(HandlerState::Writing, Event::Resolved(san_francisco()));
    assert_eq!(state, HandlerState::Closed(CloseReason::UnexpectedEvent));
    let (state, _) = pipeline.step(HandlerState::Writing, Event::EndOfStream);
    assert_eq!(state, HandlerState::Closed(CloseReason::UnexpectedEvent));
}

#[test]
fn resolvable_line_writes_exactly_one_record() {
    let pipeline = cells(4);
    let (state, actions) = drive(
        &pipeline,
        vec![
            Event::Line("{\"username\":\"root\",\"ip\":\"8.8.8.8\",\"port\":\"22\"}\n".to_string()),
            Event::Decoded(attempt("root", "8.8.8.8", "22")),
            Event::Resolved(san_francisco()),
            Event::Written,
        ],
    );
    assert_eq!(state, HandlerState::AwaitingLine);
    assert_eq!(
        actions,
        vec![
            Action::ReadLine,
            Action::Decode("{\"username\":\"root\",\"ip\":\"8.8.8.8\",\"port\":\"22\"}".to_string()),
            Action::Resolve("8.8.8.8".to_string()),
            Action::Write(record("809", "root", "8.8.8.8")),
            Action::ReadLine,
        ]
    );
    assert_eq!(written(&actions), vec![&record("809", "root", "8.8.8.8")]);
}

#[test]
fn line_without_an_address_asks_for_no_location_and_writes_nothing() {
    let pipeline = cells(4);
    let (state, actions) = drive(
        &pipeline,
        vec![
            Event::Line("{\"username\":\"x\",\"ip\":\"**NO MATCH**\",\"port\":\"1\"}\n".to_string()),
            Event::Decoded(attempt("x", "**NO MATCH**", "1")),
        ],
    );
    assert_eq!(state, HandlerState::AwaitingLine);
    assert!(actions.iter().all(|a| !matches!(a, Action::Resolve(_) | Action::Write(_))));
    assert_eq!(written(&actions).len(), 0);
}

#[test]
fn connection_goes_on_after_a_failed_resolution() {
    let pipeline = cells(4);
    let (state, actions) = drive(
        &pipeline,
        vec![
            Event::Line("first\n".to_string()),
            Event::Decoded(attempt("root", "10.0.0.1", "22")),
            Event::ResolveFailed(ResolutionError::NoLocation),
            Event::Line("second\n".to_string()),
            Event::Decoded(attempt("admin", "8.8.8.8", "22")),
            Event::Resolved(san_francisco()),
            Event::Written,
        ],
    );
    assert_eq!(state, HandlerState::AwaitingLine);
    assert_eq!(written(&actions), vec![&record("809", "admin", "8.8.8.8")]);
    assert_eq!(actions[3], Action::SkipLine(SkipReason::ResolutionFailed(ResolutionError::NoLocation)));
}

#[test]
fn connection_ends_with_a_failed_write() {
    let pipeline = cells(4);
    let (state, actions) = drive(
        &pipeline,
        vec![
            Event::Line("first\n".to_string()),
            Event::Decoded(attempt("root", "8.8.8.8", "22")),
            Event::Resolved(san_francisco()),
            Event::WriteFailed(StorageError::Communication),
            Event::Line("second\n".to_string()),
            Event::Decoded(attempt("admin", "1.1.1.1", "22")),
            Event::Resolved(san_francisco()),
            Event::Written,
        ],
    );
    assert_eq!(state, HandlerState::Closed(CloseReason::WriteFailed(StorageError::Communication)));
    assert_eq!(written(&actions), vec![&record("809", "root", "8.8.8.8")]);
    for action in &actions[4..] {
        assert_eq!(action, &Action::Close(CloseReason::WriteFailed(StorageError::Communication)));
    }
}

#[test]
fn two_connections_do_not_mix() {
    let pipeline = cells(4);
    let paris = || Coords::new(Deg(48.8566), Deg(2.3522));
    let (mut a, _) = pipeline.start();
    let (mut b, _) = pipeline.start();
    let mut from_a = Vec::new();
    let mut from_b = Vec::new();
    let events_a = vec![
        Event::Line("a\n".to_string()),
        Event::Decoded(attempt("alice", "8.8.8.8", "22")),
        Event::Resolved(san_francisco()),
        Event::Written,
    ];
    let events_b = vec![
        Event::Line("b\n".to_string()),
        Event::Decoded(attempt("bob", "1.1.1.1", "2222")),
        Event::Resolved(paris()),
        Event::Written,
    ];
    for (event_a, event_b) in events_a.into_iter().zip(events_b) {
        let (next, action) = pipeline.step(a, event_a);
        a = next;
        from_a.push(action);
        let (next, action) = pipeline.step(b, event_b);
        b = next;
        from_b.push(action);
    }
    assert_eq!(written(&from_a), vec![&record("809", "alice", "8.8.8.8")]);
    assert_eq!(written(&from_b), vec![&record("47f", "bob", "1.1.1.1")]);
    assert_eq!(a, HandlerState::AwaitingLine);
    assert_eq!(b, HandlerState::AwaitingLine);
}

#[test]
fn attempt_tells_whether_it_has_an_address() {
    assert!(attempt("root", "**NO MATCH**", "22").has_no_match());
    assert!(!attempt("root", "8.8.8.8", "22").has_no_match());
    assert!(!attempt("**NO MATCH**", "8.8.8.8", "**NO MATCH**").has_no_match());
}
