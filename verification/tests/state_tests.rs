use ws_pubsub::state::{AppState, CHANNEL_CAPACITY};

fn deliver(state: &AppState, id: &str, message: &str) -> Result<usize, String> {
    state.publish_message(id, message.to_string())
}

#[test]
fn registered_publisher_is_found() {
    let mut state = AppState::new();
    assert_eq!(state.add_publisher("alice".to_string()), Ok(()));
    assert!(state.get_publisher("alice").is_ok());
    assert_eq!(state.list_publishers(), vec!["alice".to_string()]);
}

#[test]
fn second_registration_is_refused() {
    let mut state = AppState::new();
    assert_eq!(state.add_publisher("alice".to_string()), Ok(()));
    assert_eq!(
        state.add_publisher("alice".to_string()),
        Err("Publisher 'alice' already exists".to_string())
    );
    assert_eq!(state.list_publishers().len(), 1);
}

#[test]
fn unknown_publisher_cannot_be_removed() {
    let mut state = AppState::new();
    assert_eq!(state.remove_publisher("bob"), Err("Publisher 'bob' does not exist".to_string()));
}

#[test]
fn removal_undoes_registration() {
    let mut state = AppState::new();
    assert_eq!(state.add_publisher("carol".to_string()), Ok(()));
    assert_eq!(state.add_publisher("dave".to_string()), Ok(()));
    assert_eq!(state.remove_publisher("carol"), Ok(()));
    match state.get_publisher("carol") {
        Err(text) => assert_eq!(text, "Publisher 'carol' does not exist"),
        Ok(_) => panic!("a removed publisher was found"),
    }
    assert!(state.get_publisher("dave").is_ok());
    assert_eq!(state.list_publishers(), vec!["dave".to_string()]);
    assert_eq!(state.add_publisher("carol".to_string()), Ok(()));
}

#[test]
fn publishing_on_unknown_publisher_fails() {
    let state = AppState::new();
    assert_eq!(
        state.publish_message("nobody", "hi".to_string()),
        Err("Publisher 'nobody' does not exist".to_string())
    );
    assert!(state.prepare_publication("nobody", "hi".to_string()).is_err());
}

#[test]
fn publishing_without_subscribers_fails() {
    let mut state = AppState::new();
    state.add_publisher("erin".to_string()).unwrap();
    assert_eq!(deliver(&state, "erin", "hi"), Err("Failed to send message: channel closed".to_string()));
}

#[test]
fn published_message_reaches_subscriber() {
    let mut state = AppState::new();
    state.add_publisher("frank".to_string()).unwrap();
    let sender = state.get_publisher("frank").unwrap();
    let mut receiver = sender.subscribe();
    let mut second = sender.subscribe();
    let publication = state.prepare_publication("frank", "hello".to_string()).unwrap();
    assert_eq!(publication.message, "hello");
    assert!(publication.sender.same_channel(&sender));
    assert_eq!(state.publish_message("frank", "hello".to_string()), Ok(2));
    assert_eq!(receiver.try_recv().unwrap(), "hello");
    assert_eq!(second.try_recv().unwrap(), "hello");
}

#[test]
fn listing_names_each_publisher_once() {
    let mut state = AppState::new();
    for name in ["a", "b", "c", "b"] {
        let _ = state.add_publisher(name.to_string());
    }
    state.remove_publisher("a").unwrap();
    let mut names = state.list_publishers();
    names.sort();
    assert_eq!(names, vec!["b".to_string(), "c".to_string()]);
}

#[test]
fn channel_keeps_capacity_messages() {
    let mut state = AppState::new();
    state.add_publisher("gina".to_string()).unwrap();
    let mut receiver = state.get_publisher("gina").unwrap().subscribe();
    // tokio rounds the capacity up to a power of two
    let kept = CHANNEL_CAPACITY.next_power_of_two();
    for i in 0..kept + 5 {
        assert_eq!(deliver(&state, "gina", &i.to_string()), Ok(1));
    }
    match receiver.try_recv() {
        Err(tokio::sync::broadcast::error::TryRecvError::Lagged(lost)) => assert_eq!(lost, 5),
        other => panic!("expected a lag, got {:?}", other),
    }
    assert_eq!(receiver.try_recv().unwrap(), "5");
}

#[test]
fn each_publisher_gets_its_own_channel() {
    let mut state = AppState::new();
    state.add_publisher("one".to_string()).unwrap();
    state.add_publisher("two".to_string()).unwrap();
    let one = state.get_publisher("one").unwrap();
    let two = state.get_publisher("two").unwrap();
    assert!(!one.same_channel(&two));
    let mut heard = two.subscribe();
    assert_eq!(
        state.publish_message("one", "x".to_string()),
        Err("Failed to send message: channel closed".to_string())
    );
    assert!(heard.try_recv().is_err());
}
