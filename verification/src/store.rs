//! What each kind of client request amounts to: the operation on the relay's
//! state that carries it out, and whether the client's websocket is closed
//! once it succeeded.

use crate::core_state::{
    start_add_publisher, start_add_subscriber, start_publish_message, start_remove_publisher,
    token_of, unsubscribed, AppState, Step, StepView,
};
use vstd::prelude::*;

verus! {

/// The handling of a request: the operation, and whether the websocket is
/// closed after it succeeded.
pub struct Handling {
    pub step: Step,
    pub close_after: bool,
}

/// The view of a handling.
pub struct HandlingView {
    pub step: StepView,
    pub close_after: bool,
}

impl View for Handling {
    type V = HandlingView;

    open spec fn view(&self) -> HandlingView {
        HandlingView { step: self.step@, close_after: self.close_after }
    }
}

/// A client registers as publisher `user_id`.
pub fn handle_user_register(user_id: u128, state: &AppState) -> (handling: Handling)
    ensures
        handling@ == (HandlingView { step: start_add_publisher(user_id), close_after: false }),
{
    Handling { step: state.add_publisher(user_id), close_after: false }
}

/// A client withdraws publisher `user_id`; its websocket is closed after.
pub fn handle_user_deregister(user_id: u128, state: &AppState) -> (handling: Handling)
    ensures
        handling@ == (HandlingView { step: start_remove_publisher(user_id), close_after: true }),
{
    Handling { step: state.remove_publisher(user_id), close_after: true }
}

/// A client publishes `data` as `publisher_id`.
pub fn handle_user_message(
    publisher_id: u128,
    data: String,
    state: &AppState,
) -> (handling: Handling)
    ensures
        handling@ == (HandlingView {
            step: start_publish_message(publisher_id, data@),
            close_after: false,
        }),
{
    Handling { step: state.publish_message(publisher_id, data), close_after: false }
}

/// A client subscribes as `subscriber_id` to `publisher_id`.
pub fn handle_user_subscribe(
    subscriber_id: u128,
    publisher_id: u128,
    state: &mut AppState,
) -> (handling: Handling)
    ensures
        final(state).store() == old(state).store(),
        final(state)@.contains_key(subscriber_id),
        final(state)@ == old(state)@.insert(subscriber_id, final(state)@[subscriber_id]),
        forall|k: u128|
            #[trigger] old(state)@.contains_key(k) ==> old(state)@[k] != final(state)@[
                subscriber_id
            ],
        handling@ == (HandlingView {
            step: start_add_subscriber(subscriber_id, publisher_id, final(state)@[subscriber_id]),
            close_after: false,
        }),
{
    Handling { step: state.add_subscriber(subscriber_id, publisher_id), close_after: false }
}

/// A client unsubscribes `subscriber_id`; its websocket is closed after.
pub fn handle_user_unsubscribe(subscriber_id: u128, state: &mut AppState) -> (handling: Handling)
    ensures
        final(state).store() == old(state).store(),
        final(state)@ == old(state)@.remove(subscriber_id),
        handling@ == (HandlingView {
            step: unsubscribed(subscriber_id, token_of(old(state)@, subscriber_id)),
            close_after: true,
        }),
{
    Handling { step: state.remove_subscriber(subscriber_id), close_after: true }
}

} // verus!
