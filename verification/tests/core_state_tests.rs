use redis::{ErrorKind, RedisError};
use ws_pubsub::core_state::{AppState, AppStateError, OpEffect, Reply, Step};

const ID: u128 = 0x67e5504410b1426f9247bb680e5fe0c8;
const ID_TEXT: &str = "67e55044-10b1-426f-9247-bb680e5fe0c8";
const SUB: u128 = 0x0000000000000000000000000000002a;
const SUB_TEXT: &str = "00000000-0000-0000-0000-00000000002a";

fn state() -> AppState {
    AppState::new(redis::Client::open("redis://127.0.0.1/").unwrap())
}

fn failure() -> RedisError {
    RedisError::from((ErrorKind::Io, "store unreachable"))
}

fn describe(effect: &OpEffect) -> String {
    match effect {
        OpEffect::Connect => "connect".to_string(),
        OpEffect::Get { key } => format!("get {key}"),
        OpEffect::SetExpiring { key, value, seconds } => format!("set {key} {value} ex {seconds}"),
        OpEffect::Expire { key, seconds } => format!("expire {key} {seconds}"),
        OpEffect::Delete { key } => format!("del {key}"),
        OpEffect::Publish { channel, payload } => format!("publish {channel} {payload}"),
        OpEffect::Log(line) => format!("log {line}"),
        OpEffect::Spawn { subscriber_id, publisher_id, .. } => {
            format!("spawn {subscriber_id:x} {publisher_id:x}")
        }
        OpEffect::Cancel { .. } => "cancel".to_string(),
        OpEffect::Finish(Ok(())) => "ok".to_string(),
        OpEffect::Finish(Err(AppStateError::GenericError { error })) => format!("error {error}"),
        OpEffect::Finish(Err(AppStateError::RedisConnectionError { error })) => {
            format!("connection error {:?}", error.kind())
        }
        OpEffect::Finish(Err(AppStateError::RedisExecutionError { error })) => {
            format!("execution error {:?}", error.kind())
        }
        OpEffect::Finish(Err(AppStateError::LockError)) => "lock error".to_string(),
    }
}

fn drive(first: Step, replies: Vec<Reply>) -> Vec<String> {
    let mut seen = Vec::new();
    let mut step = first;
    let mut replies = replies.into_iter();
    loop {
        for effect in &step.effects {
            seen.push(describe(effect));
        }
        match step.next {
            Some(op) => match replies.next() {
                Some(reply) => step = op.resume(reply),
                None => return seen,
            },
            None => return seen,
        }
    }
}

fn present() -> Reply {
    Reply::Value(Some("online".to_string()))
}

#[test]
fn register_sets_expiring_key() {
    let s = state();
    let seen = drive(s.add_publisher(ID), vec![Reply::Connected, Reply::Done]);
    assert_eq!(
        seen,
        vec![
            "connect".to_string(),
            format!("set publisher:{ID_TEXT} online ex 300"),
            "ok".to_string()
        ]
    );
}

#[test]
fn register_without_store_is_connection_error() {
    let s = state();
    let seen = drive(s.add_publisher(ID), vec![Reply::Failed(failure())]);
    assert_eq!(seen, vec!["connect".to_string(), "connection error Io".to_string()]);
}

#[test]
fn register_refused_is_execution_error() {
    let s = state();
    let seen = drive(s.add_publisher(ID), vec![Reply::Connected, Reply::Failed(failure())]);
    assert_eq!(seen[2], "execution error Io");
    assert_eq!(seen.len(), 3);
}

#[test]
fn remove_publishes_end_then_deletes() {
    let s = state();
    let seen = drive(
        s.remove_publisher(ID),
        vec![Reply::Connected, present(), Reply::Connected, Reply::Done, Reply::Connected, Reply::Done],
    );
    assert_eq!(
        seen,
        vec![
            "connect".to_string(),
            format!("get publisher:{ID_TEXT}"),
            "connect".to_string(),
            format!("publish {ID_TEXT} __END__"),
            format!("log Published __END__ for publisher {ID_TEXT}"),
            "connect".to_string(),
            format!("del publisher:{ID_TEXT}"),
            format!("log Deleted publisher key publisher:{ID_TEXT}"),
            format!("log Publisher {ID_TEXT} successfully deregistered"),
            "ok".to_string(),
        ]
    );
}

#[test]
fn remove_unknown_publisher_is_refused() {
    let s = state();
    let seen = drive(s.remove_publisher(ID), vec![Reply::Connected, Reply::Value(None)]);
    assert_eq!(
        seen,
        vec![
            "connect".to_string(),
            format!("get publisher:{ID_TEXT}"),
            "error Publisher doesn't exist".to_string()
        ]
    );
}

#[test]
fn failed_end_marker_is_generic_error() {
    let s = state();
    let seen = drive(
        s.remove_publisher(ID),
        vec![Reply::Connected, present(), Reply::Connected, Reply::Failed(failure())],
    );
    assert_eq!(
        seen.last().unwrap(),
        "error Error publishing __END__ message in remove_publisher"
    );
    assert!(!seen.iter().any(|e| e.starts_with("del")));
}

#[test]
fn publish_refreshes_key_and_publishes_data() {
    let s = state();
    let seen = drive(
        s.publish_message(ID, "{\"x\":1}".to_string()),
        vec![Reply::Connected, Reply::Connected, present(), Reply::Done, Reply::Done],
    );
    assert_eq!(
        seen,
        vec![
            "connect".to_string(),
            "connect".to_string(),
            format!("get publisher:{ID_TEXT}"),
            format!("expire publisher:{ID_TEXT} 300"),
            format!("publish {ID_TEXT} {{\"x\":1}}"),
            "ok".to_string(),
        ]
    );
}

#[test]
fn publish_as_unknown_publisher_is_refused() {
    let s = state();
    let seen = drive(
        s.publish_message(ID, "1".to_string()),
        vec![Reply::Connected, Reply::Connected, Reply::Value(None)],
    );
    assert_eq!(seen.last().unwrap(), "error Publisher doesn't exist");
    assert!(!seen.iter().any(|e| e.starts_with("publish")));
}

#[test]
fn publish_failure_on_second_connection() {
    let s = state();
    let seen = drive(
        s.publish_message(ID, "1".to_string()),
        vec![Reply::Connected, Reply::Failed(failure())],
    );
    assert_eq!(seen, vec!["connect", "connect", "connection error Io"]);
}

#[test]
fn subscribe_spawns_task_with_kept_token() {
    let mut s = state();
    let first = s.add_subscriber(SUB, ID);
    let mut step = first;
    let mut replies = vec![Reply::Connected, present(), Reply::Done].into_iter();
    let mut token = None;
    loop {
        for effect in &step.effects {
            if let OpEffect::Spawn { subscriber_id, publisher_id, token: t } = effect {
                assert_eq!(*subscriber_id, SUB);
                assert_eq!(*publisher_id, ID);
                token = Some(t.clone());
            }
        }
        match step.next {
            Some(op) => step = op.resume(replies.next().unwrap()),
            None => break,
        }
    }
    assert!(matches!(step.effects.last(), Some(OpEffect::Finish(Ok(())))));
    let token = token.unwrap();
    assert!(!token.is_cancelled());
    let removal = s.remove_subscriber(SUB);
    match &removal.effects[0] {
        OpEffect::Cancel { token: kept } => {
            assert!(*kept == token);
            kept.cancel();
        }
        _ => panic!("the token is not cancelled"),
    }
    assert!(token.is_cancelled());
    let seen = drive(removal, vec![]);
    assert_eq!(
        seen,
        vec![
            "cancel".to_string(),
            format!("log Unsubscribed subscriber {SUB_TEXT} and cancelled task"),
            "ok".to_string()
        ]
    );
    let again = drive(s.remove_subscriber(SUB), vec![]);
    assert_eq!(
        again,
        vec![format!("log Unsubscribe requested, but no task found for {SUB_TEXT}"), "ok".to_string()]
    );
}

#[test]
fn subscribe_to_unknown_publisher_spawns_nothing() {
    let mut s = state();
    let seen = drive(s.add_subscriber(SUB, ID), vec![Reply::Connected, Reply::Value(None)]);
    assert_eq!(
        seen,
        vec![
            "connect".to_string(),
            format!("get publisher:{ID_TEXT}"),
            "error Publisher doesn't exist".to_string()
        ]
    );
    let after = drive(s.remove_subscriber(SUB), vec![]);
    assert_eq!(after[0], "cancel");
    assert!(after[1].contains("and cancelled task"));
}

#[test]
fn client_is_kept() {
    let s = state();
    let client = s.redis();
    assert_eq!(format!("{:?}", client), format!("{:?}", redis::Client::open("redis://127.0.0.1/").unwrap()));
}

#[test]
fn second_subscription_gets_a_new_token() {
    let mut s = state();
    let first = s.add_subscriber(SUB, ID);
    let first_token = match first.next {
        Some(op) => match op.resume(Reply::Connected).next.unwrap().resume(present()).effects.remove(0) {
            OpEffect::Spawn { token, .. } => token,
            _ => panic!("no spawn"),
        },
        None => panic!("no operation"),
    };
    let _second = s.add_subscriber(SUB, ID);
    let removal = s.remove_subscriber(SUB);
    match &removal.effects[0] {
        OpEffect::Cancel { token } => assert!(*token != first_token),
        _ => panic!("nothing cancelled"),
    }
}
