use redis::{ErrorKind, RedisError};
use ws_pubsub::core_state::{AppState, AppStateError, OpEffect};
use ws_pubsub::reader::{ReadEffect, ReadEvent, Reader, UserMessage};

fn state() -> AppState {
    AppState::new(redis::Client::open("redis://127.0.0.1/").unwrap())
}

fn describe(effect: &ReadEffect) -> String {
    match effect {
        ReadEffect::Log(l) => format!("log {l}"),
        ReadEffect::LogError(l) => format!("err {l}"),
        ReadEffect::ShowRequest => "show".to_string(),
        ReadEffect::Run(h) => format!("run {} close={}", h.step.effects.len(), h.close_after),
        ReadEffect::SendClose => "close".to_string(),
        ReadEffect::LogFailure { context, .. } => format!("failure {context}"),
        ReadEffect::Respond(t) => format!("respond {t}"),
        ReadEffect::Receive => "receive".to_string(),
        ReadEffect::Stop => "stop".to_string(),
    }
}

fn describe_all(effects: &[ReadEffect]) -> Vec<String> {
    effects.iter().map(describe).collect()
}

#[test]
fn frames_are_recorded_and_acknowledged() {
    let mut s = state();
    let reader = Reader::new();
    let (reader, effects) = reader.step(&mut s, ReadEvent::Binary { len: 3 });
    assert_eq!(
        describe_all(&effects),
        vec!["log Received 3 bytes of binary data from ", "respond Success", "receive"]
    );
    let (reader, effects) = reader.step(&mut s, ReadEvent::Ping);
    assert_eq!(describe_all(&effects)[0], "log Received ping from ");
    let (reader, effects) = reader.step(&mut s, ReadEvent::Pong);
    assert_eq!(describe_all(&effects)[0], "log Received pong from ");
    let (_, effects) = reader.step(&mut s, ReadEvent::Close);
    assert_eq!(
        describe_all(&effects),
        vec!["log Client  closed connection", "respond Success", "receive"]
    );
}

#[test]
fn unreadable_request_stops() {
    let mut s = state();
    let (_, effects) = Reader::new().step(&mut s, ReadEvent::Text(None));
    assert_eq!(
        describe_all(&effects),
        vec!["err Failed to parse user message: Error parsing message", "stop"]
    );
}

#[test]
fn register_request_runs_and_is_acknowledged() {
    let mut s = state();
    let (reader, effects) =
        Reader::new().step(&mut s, ReadEvent::Text(Some(UserMessage::Register { user_id: 5 })));
    assert_eq!(describe_all(&effects), vec!["show", "run 1 close=false"]);
    match &effects[1] {
        ReadEffect::Run(h) => assert!(matches!(h.step.effects[0], OpEffect::Connect)),
        _ => panic!("no operation"),
    }
    let (reader, effects) = reader.step(&mut s, ReadEvent::Handled(Ok(())));
    assert_eq!(describe_all(&effects), vec!["respond Success", "receive"]);
    assert!(reader == Reader::Reading);
}

#[test]
fn deregister_closes_after() {
    let mut s = state();
    let (reader, effects) =
        Reader::new().step(&mut s, ReadEvent::Text(Some(UserMessage::Deregister { user_id: 5 })));
    assert_eq!(describe_all(&effects), vec!["show", "run 1 close=true"]);
    assert!(reader == Reader::Handling { close_after: true });
    let (_, effects) = reader.step(&mut s, ReadEvent::Handled(Ok(())));
    assert_eq!(describe_all(&effects), vec!["close", "respond Success", "receive"]);
}

#[test]
fn failed_deregister_does_not_close() {
    let mut s = state();
    let (reader, _) =
        Reader::new().step(&mut s, ReadEvent::Text(Some(UserMessage::Deregister { user_id: 5 })));
    let (_, effects) = reader.step(
        &mut s,
        ReadEvent::Handled(Err(AppStateError::GenericError { error: "Publisher doesn't exist" })),
    );
    assert_eq!(describe_all(&effects), vec!["failure Error handling message: ", "stop"]);
}

#[test]
fn failed_request_stops_without_acknowledgement() {
    let mut s = state();
    let (reader, _) = Reader::new().step(
        &mut s,
        ReadEvent::Text(Some(UserMessage::Message { publisher_id: 5, data: "1".to_string() })),
    );
    let error = RedisError::from((ErrorKind::Io, "down"));
    let (_, effects) = reader.step(
        &mut s,
        ReadEvent::Handled(Err(AppStateError::RedisConnectionError { error })),
    );
    assert_eq!(describe_all(&effects), vec!["failure Error handling message: ", "stop"]);
}

#[test]
fn unsubscribe_after_subscribe_cancels() {
    let mut s = state();
    let (reader, _) = Reader::new().step(
        &mut s,
        ReadEvent::Text(Some(UserMessage::Subscribe { publisher_id: 9, subscriber_id: 3 })),
    );
    let (reader, _) = reader.step(&mut s, ReadEvent::Handled(Ok(())));
    let (_, effects) =
        reader.step(&mut s, ReadEvent::Text(Some(UserMessage::Unsubscribe { subscriber_id: 3 })));
    match &effects[1] {
        ReadEffect::Run(h) => {
            assert!(h.close_after);
            assert!(matches!(h.step.effects[0], OpEffect::Cancel { .. }));
            match &h.step.effects[1] {
                OpEffect::Log(line) => assert_eq!(
                    line,
                    "Unsubscribed subscriber 00000000-0000-0000-0000-000000000003 and cancelled task"
                ),
                _ => panic!("no line"),
            }
        }
        _ => panic!("no operation"),
    }
}

#[test]
fn ended_websocket_stops() {
    let mut s = state();
    let (_, effects) = Reader::new().step(&mut s, ReadEvent::Ended);
    assert_eq!(describe_all(&effects), vec!["stop"]);
}
