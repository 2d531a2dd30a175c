use ws_pubsub::session::{
    connection_notice, error_response, success_response, RegisterMsg, Session, SessionEffect,
    SessionEvent, Stage,
};
use ws_pubsub::state::AppState;

fn describe(effect: &SessionEffect) -> String {
    match effect {
        SessionEffect::SendPing => "ping".to_string(),
        SessionEffect::Log(l) => format!("log {l}"),
        SessionEffect::LogError(l) => format!("err {l}"),
        SessionEffect::Respond(r) => format!("respond {} {}", r.success, r.message),
        SessionEffect::Receive => "receive".to_string(),
        SessionEffect::Relay(_) => "relay".to_string(),
        SessionEffect::Deliver(m) => format!("deliver {m}"),
        SessionEffect::Finish => "finish".to_string(),
    }
}

fn describe_all(effects: &[SessionEffect]) -> Vec<String> {
    effects.iter().map(describe).collect()
}

fn serving(registry: &mut AppState, port: u16) -> Session {
    let (session, effects) = Session::new("127.0.0.1:4000".to_string(), port);
    assert_eq!(describe_all(&effects), vec!["ping"]);
    let (session, effects) = session.step(registry, SessionEvent::PingSent);
    assert_eq!(describe_all(&effects), vec!["log Ping sent to 127.0.0.1:4000", "receive"]);
    session
}

fn register(role: &str, id: Option<&str>, subscribe_to: Option<&str>) -> SessionEvent {
    SessionEvent::Text {
        message: "raw".to_string(),
        parsed: Some(RegisterMsg {
            role: role.to_string(),
            id: id.map(|s| s.to_string()),
            subscribe_to: subscribe_to.map(|s| s.to_string()),
        }),
    }
}

#[test]
fn failed_ping_finishes() {
    let mut registry = AppState::new();
    let (session, _) = Session::new("peer".to_string(), 1);
    let (session, effects) = session.step(&mut registry, SessionEvent::PingFailed);
    assert_eq!(describe_all(&effects), vec!["log Failed to send ping to peer", "finish"]);
    assert!(matches!(session.stage, Stage::Finished));
    let (_, effects) = session.step(&mut registry, SessionEvent::Close);
    assert_eq!(describe_all(&effects), vec!["finish"]);
}

#[test]
fn publisher_registers() {
    let mut registry = AppState::new();
    let session = serving(&mut registry, 1);
    let (session, effects) = session.step(&mut registry, register("publisher", Some("news"), None));
    assert_eq!(
        describe_all(&effects),
        vec![
            "log Client says: raw",
            "log Registered as publisher with id news",
            "respond true Registered as publisher: news",
            "receive"
        ]
    );
    assert!(registry.get_publisher("news").is_ok());
    let (_, effects) = session.step(&mut registry, register("publisher", Some("news"), None));
    assert_eq!(
        describe_all(&effects),
        vec!["log Client says: raw", "respond false Publisher 'news' already exists", "receive"]
    );
}

#[test]
fn publisher_needs_id() {
    let mut registry = AppState::new();
    let session = serving(&mut registry, 1);
    let (_, effects) = session.step(&mut registry, register("publisher", None, None));
    assert_eq!(
        describe_all(&effects),
        vec!["log Client says: raw", "respond false Publisher ID is required", "receive"]
    );
}

#[test]
fn subscriber_relays_publisher_channel() {
    let mut registry = AppState::new();
    let publisher = serving(&mut registry, 1);
    let _ = publisher.step(&mut registry, register("publisher", Some("news"), None));
    let subscriber = serving(&mut registry, 4242);
    let (subscriber, mut effects) =
        subscriber.step(&mut registry, register("subscriber", None, Some("news")));
    assert_eq!(
        describe_all(&effects),
        vec![
            "log Client says: raw",
            "log Subscriber sub_4242 subscribed to publisher news",
            "respond true Subscribed to publisher: news",
            "relay"
        ]
    );
    let sender = match effects.pop() {
        Some(SessionEffect::Relay(sender)) => sender,
        _ => panic!("no relay"),
    };
    let mut receiver = sender.subscribe();
    assert_eq!(registry.publish_message("news", "flash".to_string()), Ok(1));
    let message = receiver.try_recv().unwrap();
    let (subscriber, effects) =
        subscriber.step(&mut registry, SessionEvent::Published { message });
    assert_eq!(describe_all(&effects), vec!["deliver flash"]);
    let (_, effects) = subscriber.step(&mut registry, SessionEvent::DeliveryFailed);
    assert_eq!(
        describe_all(&effects),
        vec!["log Failed to send message to subscriber sub_4242", "finish"]
    );
}

#[test]
fn subscriber_keeps_given_name() {
    let mut registry = AppState::new();
    registry.add_publisher("news".to_string()).unwrap();
    let session = serving(&mut registry, 1);
    let (session, effects) =
        session.step(&mut registry, register("subscriber", Some("zoe"), Some("news")));
    assert_eq!(describe(&effects[1]), "log Subscriber zoe subscribed to publisher news");
    assert!(matches!(session.stage, Stage::Relaying(ref name) if name == "zoe"));
}

#[test]
fn subscriber_to_unknown_publisher_is_refused() {
    let mut registry = AppState::new();
    let session = serving(&mut registry, 1);
    let (session, effects) =
        session.step(&mut registry, register("subscriber", None, Some("ghost")));
    assert_eq!(
        describe_all(&effects),
        vec![
            "log Client says: raw",
            "respond false No publisher found with id ghost: Publisher 'ghost' does not exist",
            "receive"
        ]
    );
    assert!(matches!(session.stage, Stage::Serving));
}

#[test]
fn subscriber_needs_publisher() {
    let mut registry = AppState::new();
    let session = serving(&mut registry, 1);
    let (_, effects) = session.step(&mut registry, register("subscriber", None, None));
    assert_eq!(
        describe_all(&effects),
        vec!["log Client says: raw", "respond false Publisher ID to subscribe to is required", "receive"]
    );
}

#[test]
fn invalid_role_is_refused() {
    let mut registry = AppState::new();
    let session = serving(&mut registry, 1);
    let (_, effects) = session.step(&mut registry, register("admin", Some("x"), None));
    assert_eq!(
        describe_all(&effects),
        vec![
            "log Client says: raw",
            "respond false Invalid role. Use 'publisher' or 'subscriber'",
            "receive"
        ]
    );
}

#[test]
fn unreadable_registration_finishes() {
    let mut registry = AppState::new();
    let session = serving(&mut registry, 1);
    let (session, effects) = session.step(
        &mut registry,
        SessionEvent::Text { message: "not json".to_string(), parsed: None },
    );
    assert_eq!(
        describe_all(&effects),
        vec!["log Client says: not json", "err Invalid registration message", "finish"]
    );
    assert!(matches!(session.stage, Stage::Finished));
}

#[test]
fn other_frames() {
    let mut registry = AppState::new();
    let session = serving(&mut registry, 1);
    let (session, effects) = session.step(&mut registry, SessionEvent::Binary { len: 12 });
    assert_eq!(describe_all(&effects), vec!["log Client sent 12 bytes of binary data", "receive"]);
    let (session, effects) = session.step(&mut registry, SessionEvent::Other);
    assert_eq!(describe_all(&effects), vec!["receive"]);
    let (_, effects) = session.step(&mut registry, SessionEvent::Close);
    assert_eq!(describe_all(&effects), vec!["log Client closed connection", "finish"]);
}

#[test]
fn ended_connection_finishes() {
    let mut registry = AppState::new();
    let session = serving(&mut registry, 1);
    let (session, effects) = session.step(&mut registry, SessionEvent::Ended);
    assert_eq!(describe_all(&effects), vec!["finish"]);
    assert!(matches!(session.stage, Stage::Finished));
}

#[test]
fn responses() {
    let ok = success_response("fine".to_string());
    assert!(ok.success);
    assert_eq!(ok.message, "fine");
    let bad = error_response("nope".to_string());
    assert!(!bad.success);
    assert_eq!(bad.message, "nope");
}

#[test]
fn connection_notices() {
    assert_eq!(
        connection_notice(Some("curl/8".to_string()), "1.2.3.4:5"),
        "`curl/8` at 1.2.3.4:5 connected."
    );
    assert_eq!(connection_notice(None, "peer"), "`Unknown browser` at peer connected.");
}
