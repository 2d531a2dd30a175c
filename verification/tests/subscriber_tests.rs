use ws_pubsub::subscriber::{subscriber_task, TaskEffect, TaskEvent, TaskStage, TaskStep};

const SID: u128 = 1;
const PID: u128 = 0xabc;
const SID_TEXT: &str = "00000000-0000-0000-0000-000000000001";
const PID_TEXT: &str = "00000000-0000-0000-0000-000000000abc";

fn describe(effect: &TaskEffect) -> String {
    match effect {
        TaskEffect::Log(l) => format!("log {l}"),
        TaskEffect::LogError(l) => format!("err {l}"),
        TaskEffect::OpenPubSub => "open".to_string(),
        TaskEffect::Subscribe { channel } => format!("subscribe {channel}"),
        TaskEffect::Listen => "listen".to_string(),
        TaskEffect::Forward(p) => format!("forward {p}"),
        TaskEffect::Unsubscribe { channel } => format!("unsubscribe {channel}"),
        TaskEffect::SendClose => "close".to_string(),
    }
}

fn drive(events: Vec<TaskEvent>) -> (Vec<String>, bool) {
    let mut seen = Vec::new();
    let mut step: TaskStep = subscriber_task(SID, PID);
    let mut events = events.into_iter();
    loop {
        for effect in &step.effects {
            seen.push(describe(effect));
        }
        match step.next {
            Some(task) => match events.next() {
                Some(event) => step = task.resume(event),
                None => return (seen, false),
            },
            None => return (seen, true),
        }
    }
}

fn listening() -> Vec<TaskEvent> {
    vec![TaskEvent::PubSubOpened, TaskEvent::Subscribed]
}

#[test]
fn task_subscribes_to_publisher_channel() {
    let (seen, over) = drive(listening());
    assert!(!over);
    assert_eq!(
        seen,
        vec![
            format!("log Starting subscriber task: subscriber={SID_TEXT} → publisher={PID_TEXT}"),
            "open".to_string(),
            format!("subscribe {PID_TEXT}"),
            format!("log Subscriber {SID_TEXT} is now listening to publisher {PID_TEXT}"),
            "listen".to_string(),
        ]
    );
}

#[test]
fn task_forwards_payloads_unchanged() {
    let mut events = listening();
    events.push(TaskEvent::Payload("{\"a\":1}".to_string()));
    events.push(TaskEvent::Forwarded);
    events.push(TaskEvent::Payload("second".to_string()));
    let (seen, over) = drive(events);
    assert!(!over);
    assert_eq!(
        &seen[5..],
        &["forward {\"a\":1}".to_string(), "listen".to_string(), "forward second".to_string()]
    );
}

#[test]
fn end_marker_stops_task() {
    let mut events = listening();
    events.push(TaskEvent::Payload("__END__".to_string()));
    let (seen, over) = drive(events);
    assert!(over);
    assert_eq!(
        &seen[5..],
        &[
            format!("log Publisher {PID_TEXT} sent __END__, stopping subscriber {SID_TEXT}"),
            format!("unsubscribe {PID_TEXT}"),
            "close".to_string(),
            format!("log Subscriber {SID_TEXT} unsubscribed cleanly from publisher {PID_TEXT}"),
        ]
    );
}

#[test]
fn cancellation_stops_task() {
    let mut events = listening();
    events.push(TaskEvent::Cancelled);
    let (seen, over) = drive(events);
    assert!(over);
    assert_eq!(seen[5], format!("log CancellationToken triggered → stopping subscriber {SID_TEXT}"));
    assert_eq!(seen[6], format!("unsubscribe {PID_TEXT}"));
    assert_eq!(seen[7], "close");
}

#[test]
fn ended_stream_stops_task() {
    let mut events = listening();
    events.push(TaskEvent::StreamEnded);
    let (seen, over) = drive(events);
    assert!(over);
    assert_eq!(seen[5], format!("err Redis pubsub ended for subscriber {SID_TEXT}"));
    assert_eq!(seen.len(), 9);
}

#[test]
fn closed_websocket_stops_task() {
    let mut events = listening();
    events.push(TaskEvent::Payload("x".to_string()));
    events.push(TaskEvent::ForwardFailed);
    let (seen, over) = drive(events);
    assert!(over);
    assert_eq!(seen[6], format!("log WebSocket closed → stopping subscriber {SID_TEXT}"));
    assert_eq!(seen[8], "close");
}

#[test]
fn unreadable_payload_is_skipped() {
    let mut events = listening();
    events.push(TaskEvent::PayloadUnreadable("bad bytes".to_string()));
    let (seen, over) = drive(events);
    assert!(!over);
    assert_eq!(
        &seen[5..],
        &[format!("err Subscriber {SID_TEXT}: failed to parse payload: bad bytes"), "listen".to_string()]
    );
}

#[test]
fn failed_pubsub_ends_without_unsubscribing() {
    let (seen, over) = drive(vec![TaskEvent::PubSubFailed("refused".to_string())]);
    assert!(over);
    assert_eq!(
        &seen[2..],
        &[format!("err Subscriber {SID_TEXT} failed to create pubsub connection: refused")]
    );
}

#[test]
fn failed_subscription_ends_task() {
    let (seen, over) =
        drive(vec![TaskEvent::PubSubOpened, TaskEvent::SubscribeFailed("denied".to_string())]);
    assert!(over);
    assert_eq!(
        seen.last().unwrap(),
        &format!("err Subscriber {SID_TEXT} failed to subscribe to {PID_TEXT}: denied")
    );
}

#[test]
fn task_starts_opening() {
    let step = subscriber_task(SID, PID);
    let task = step.next.unwrap();
    assert!(task.stage == TaskStage::OpeningPubSub);
    assert_eq!(task.subscriber_id, SID);
    assert_eq!(task.publisher_id, PID);
}
