//! The task of one subscriber: it listens on its publisher's channel in the
//! store and forwards every message to the subscriber's websocket, until it
//! is cancelled, the channel ends, the websocket closes, or the publisher
//! sends the end marker. The caller performs each effect and reports what
//! happened; here each report decides what follows.

use crate::core_state::{
    end_marker, found, law_publish_sends_data_on_channel, law_remove_ends_then_deletes, run,
    start_publish_message, start_remove_publisher, OpEffectView, ReplyView,
};
use crate::text::{channel_name, channel_text, format_uuid, uuid_text};
use vstd::prelude::*;

verus! {

/// What happened, as reported by the caller.
pub enum TaskEvent {
    /// The effects were carried out and nothing is reported.
    Ack,
    /// A subscription connection to the store is open.
    PubSubOpened,
    /// It could not be opened, with the error's text.
    PubSubFailed(String),
    /// The subscription to the channel holds.
    Subscribed,
    /// It was refused, with the error's text.
    SubscribeFailed(String),
    /// The task's token was cancelled.
    Cancelled,
    /// The channel yields nothing more.
    StreamEnded,
    /// A message came on the channel.
    Payload(String),
    /// A message came that is not text, with the error's text.
    PayloadUnreadable(String),
    /// The message went out on the websocket.
    Forwarded,
    /// The websocket is closed.
    ForwardFailed,
}

/// The view of an event.
pub enum TaskEventView {
    Ack,
    PubSubOpened,
    PubSubFailed(Seq<char>),
    Subscribed,
    SubscribeFailed(Seq<char>),
    Cancelled,
    StreamEnded,
    Payload(Seq<char>),
    PayloadUnreadable(Seq<char>),
    Forwarded,
    ForwardFailed,
}

impl View for TaskEvent {
    type V = TaskEventView;

    open spec fn view(&self) -> TaskEventView {
        match self {
            TaskEvent::Ack => TaskEventView::Ack,
            TaskEvent::PubSubOpened => TaskEventView::PubSubOpened,
            TaskEvent::PubSubFailed(t) => TaskEventView::PubSubFailed(t@),
            TaskEvent::Subscribed => TaskEventView::Subscribed,
            TaskEvent::SubscribeFailed(t) => TaskEventView::SubscribeFailed(t@),
            TaskEvent::Cancelled => TaskEventView::Cancelled,
            TaskEvent::StreamEnded => TaskEventView::StreamEnded,
            TaskEvent::Payload(p) => TaskEventView::Payload(p@),
            TaskEvent::PayloadUnreadable(t) => TaskEventView::PayloadUnreadable(t@),
            TaskEvent::Forwarded => TaskEventView::Forwarded,
            TaskEvent::ForwardFailed => TaskEventView::ForwardFailed,
        }
    }
}

/// What the caller is to do, in order.
pub enum TaskEffect {
    /// Print a line.
    Log(String),
    /// Print a line on the error output.
    LogError(String),
    /// Open a subscription connection to the store, and report how it went.
    OpenPubSub,
    /// Subscribe to `channel`, and report how it went.
    Subscribe { channel: String },
    /// Wait for the next message on the channel or for the cancellation.
    Listen,
    /// Send this text on the websocket, and report how it went.
    Forward(String),
    /// Unsubscribe from `channel`, whatever comes of it.
    Unsubscribe { channel: String },
    /// Send a close frame on the websocket, whatever comes of it.
    SendClose,
}

/// The view of an effect.
pub enum TaskEffectView {
    Log(Seq<char>),
    LogError(Seq<char>),
    OpenPubSub,
    Subscribe { channel: Seq<char> },
    Listen,
    Forward(Seq<char>),
    Unsubscribe { channel: Seq<char> },
    SendClose,
}

impl View for TaskEffect {
    type V = TaskEffectView;

    open spec fn view(&self) -> TaskEffectView {
        match self {
            TaskEffect::Log(l) => TaskEffectView::Log(l@),
            TaskEffect::LogError(l) => TaskEffectView::LogError(l@),
            TaskEffect::OpenPubSub => TaskEffectView::OpenPubSub,
            TaskEffect::Subscribe { channel } => TaskEffectView::Subscribe { channel: channel@ },
            TaskEffect::Listen => TaskEffectView::Listen,
            TaskEffect::Forward(p) => TaskEffectView::Forward(p@),
            TaskEffect::Unsubscribe { channel } => TaskEffectView::Unsubscribe { channel: channel@ },
            TaskEffect::SendClose => TaskEffectView::SendClose,
        }
    }
}

/// The views of a sequence of effects.
pub open spec fn task_effects(v: Seq<TaskEffect>) -> Seq<TaskEffectView> {
    v.map_values(|e: TaskEffect| e@)
}

/// What the task waits for.
#[derive(PartialEq, Eq, Structural, Clone, Copy)]
pub enum TaskStage {
    /// The subscription connection.
    OpeningPubSub,
    /// The subscription to the channel.
    Subscribing,
    /// A message or the cancellation.
    Listening,
    /// The forwarding of a message.
    Forwarding,
}

/// A subscriber's task: whose it is, on which publisher, and what it waits
/// for.
pub struct SubscriberTask {
    pub subscriber_id: u128,
    pub publisher_id: u128,
    pub stage: TaskStage,
}

/// One step of a task: its effects, and the task that waits for the report
/// on them, unless it is over.
pub struct TaskStep {
    pub effects: Vec<TaskEffect>,
    pub next: Option<SubscriberTask>,
}

/// The view of a step.
pub struct TaskStepView {
    pub effects: Seq<TaskEffectView>,
    pub next: Option<SubscriberTask>,
}

impl View for TaskStep {
    type V = TaskStepView;

    open spec fn view(&self) -> TaskStepView {
        TaskStepView { effects: task_effects(self.effects@), next: self.next }
    }
}

/// The task in stage `stage`.
pub open spec fn task_at(subscriber_id: u128, publisher_id: u128, stage: TaskStage) -> SubscriberTask {
    SubscriberTask { subscriber_id, publisher_id, stage }
}

/// The steps by which the task leaves, after `line`: it unsubscribes, closes
/// the websocket, and says so.
pub open spec fn leave(t: SubscriberTask, line: TaskEffectView) -> TaskStepView {
    TaskStepView {
        effects: seq![
            line,
            TaskEffectView::Unsubscribe { channel: channel_name(t.publisher_id) },
            TaskEffectView::SendClose,
            TaskEffectView::Log(
                "Subscriber "@ + uuid_text(t.subscriber_id) + " unsubscribed cleanly from publisher "@
                    + uuid_text(t.publisher_id),
            ),
        ],
        next: None,
    }
}

/// The first step of the task of `subscriber_id` on `publisher_id`.
pub open spec fn start_task(subscriber_id: u128, publisher_id: u128) -> TaskStepView {
    TaskStepView {
        effects: seq![
            TaskEffectView::Log(
                "Starting subscriber task: subscriber="@ + uuid_text(subscriber_id) + " → publisher="@
                    + uuid_text(publisher_id),
            ),
            TaskEffectView::OpenPubSub,
        ],
        next: Some(task_at(subscriber_id, publisher_id, TaskStage::OpeningPubSub)),
    }
}

/// What the task does with a report. A report other than the ones a stage
/// expects counts as the success of what it waits for (for the stage that
/// listens: as nothing, and it listens again).
pub open spec fn task_advance(t: SubscriberTask, event: TaskEventView) -> TaskStepView {
    let sid = uuid_text(t.subscriber_id);
    let pid = uuid_text(t.publisher_id);
    match t.stage {
        TaskStage::OpeningPubSub => match event {
            TaskEventView::PubSubFailed(text) => TaskStepView {
                effects: seq![
                    TaskEffectView::LogError(
                        "Subscriber "@ + sid + " failed to create pubsub connection: "@ + text,
                    ),
                ],
                next: None,
            },
            _ => TaskStepView {
                effects: seq![TaskEffectView::Subscribe { channel: channel_name(t.publisher_id) }],
                next: Some(SubscriberTask { stage: TaskStage::Subscribing, ..t }),
            },
        },
        TaskStage::Subscribing => match event {
            TaskEventView::SubscribeFailed(text) => TaskStepView {
                effects: seq![
                    TaskEffectView::LogError(
                        "Subscriber "@ + sid + " failed to subscribe to "@ + pid + ": "@ + text,
                    ),
                ],
                next: None,
            },
            _ => TaskStepView {
                effects: seq![
                    TaskEffectView::Log(
                        "Subscriber "@ + sid + " is now listening to publisher "@ + pid,
                    ),
                    TaskEffectView::Listen,
                ],
                next: Some(SubscriberTask { stage: TaskStage::Listening, ..t }),
            },
        },
        TaskStage::Listening => match event {
            TaskEventView::Cancelled => leave(
                t,
                TaskEffectView::Log("CancellationToken triggered → stopping subscriber "@ + sid),
            ),
            TaskEventView::StreamEnded => leave(
                t,
                TaskEffectView::LogError("Redis pubsub ended for subscriber "@ + sid),
            ),
            TaskEventView::PayloadUnreadable(text) => TaskStepView {
                effects: seq![
                    TaskEffectView::LogError(
                        "Subscriber "@ + sid + ": failed to parse payload: "@ + text,
                    ),
                    TaskEffectView::Listen,
                ],
                next: Some(t),
            },
            TaskEventView::Payload(payload) => if payload == end_marker() {
                leave(
                    t,
                    TaskEffectView::Log(
                        "Publisher "@ + pid + " sent __END__, stopping subscriber "@ + sid,
                    ),
                )
            } else {
                TaskStepView {
                    effects: seq![TaskEffectView::Forward(payload)],
                    next: Some(SubscriberTask { stage: TaskStage::Forwarding, ..t }),
                }
            },
            _ => TaskStepView { effects: seq![TaskEffectView::Listen], next: Some(t) },
        },
        TaskStage::Forwarding => match event {
            TaskEventView::ForwardFailed => leave(
                t,
                TaskEffectView::Log("WebSocket closed → stopping subscriber "@ + sid),
            ),
            _ => TaskStepView {
                effects: seq![TaskEffectView::Listen],
                next: Some(SubscriberTask { stage: TaskStage::Listening, ..t }),
            },
        },
    }
}

/// Starts the task of `subscriber_id` on the channel of `publisher_id`.
pub fn subscriber_task(subscriber_id: u128, publisher_id: u128) -> (step: TaskStep)
    ensures
        step@ == start_task(subscriber_id, publisher_id),
{
    let mut line = String::from_str("Starting subscriber task: subscriber=");
    let sid = format_uuid(subscriber_id);
    line.append(sid.as_str());
    line.append(" → publisher=");
    let pid = format_uuid(publisher_id);
    line.append(pid.as_str());
    let mut effects = Vec::new();
    effects.push(TaskEffect::Log(line));
    effects.push(TaskEffect::OpenPubSub);
    let step = TaskStep {
        effects,
        next: Some(SubscriberTask { subscriber_id, publisher_id, stage: TaskStage::OpeningPubSub }),
    };
    assert(step@.effects =~= start_task(subscriber_id, publisher_id).effects);
    step
}

impl SubscriberTask {
    fn leave_after(self, line: TaskEffect) -> (step: TaskStep)
        ensures
            step@ == leave(self, line@),
    {
        let mut effects = Vec::new();
        effects.push(line);
        effects.push(TaskEffect::Unsubscribe { channel: channel_text(self.publisher_id) });
        effects.push(TaskEffect::SendClose);
        let mut last = String::from_str("Subscriber ");
        let sid = format_uuid(self.subscriber_id);
        last.append(sid.as_str());
        last.append(" unsubscribed cleanly from publisher ");
        let pid = format_uuid(self.publisher_id);
        last.append(pid.as_str());
        effects.push(TaskEffect::Log(last));
        let step = TaskStep { effects, next: None };
        assert(step@.effects =~= leave(self, line@).effects);
        step
    }

    /// Takes a report and says what follows.
    pub fn resume(self, event: TaskEvent) -> (step: TaskStep)
        ensures
            step@ == task_advance(self, event@),
    {
        let t = self;
        let mut effects: Vec<TaskEffect> = Vec::new();
        match t.stage {
            TaskStage::OpeningPubSub => match event {
                TaskEvent::PubSubFailed(text) => {
                    let mut line = String::from_str("Subscriber ");
                    let sid = format_uuid(t.subscriber_id);
                    line.append(sid.as_str());
                    line.append(" failed to create pubsub connection: ");
                    line.append(text.as_str());
                    effects.push(TaskEffect::LogError(line));
                    let step = TaskStep { effects, next: None };
                    assert(step@.effects =~= task_advance(t, event@).effects);
                    step
                },
                _ => {
                    effects.push(TaskEffect::Subscribe { channel: channel_text(t.publisher_id) });
                    let step = TaskStep {
                        effects,
                        next: Some(SubscriberTask { stage: TaskStage::Subscribing, ..t }),
                    };
                    assert(step@.effects =~= task_advance(t, event@).effects);
                    step
                },
            },
            TaskStage::Subscribing => match event {
                TaskEvent::SubscribeFailed(text) => {
                    let mut line = String::from_str("Subscriber ");
                    let sid = format_uuid(t.subscriber_id);
                    line.append(sid.as_str());
                    line.append(" failed to subscribe to ");
                    let pid = format_uuid(t.publisher_id);
                    line.append(pid.as_str());
                    line.append(": ");
                    line.append(text.as_str());
                    effects.push(TaskEffect::LogError(line));
                    let step = TaskStep { effects, next: None };
                    assert(step@.effects =~= task_advance(t, event@).effects);
                    step
                },
                _ => {
                    let mut line = String::from_str("Subscriber ");
                    let sid = format_uuid(t.subscriber_id);
                    line.append(sid.as_str());
                    line.append(" is now listening to publisher ");
                    let pid = format_uuid(t.publisher_id);
                    line.append(pid.as_str());
                    effects.push(TaskEffect::Log(line));
                    effects.push(TaskEffect::Listen);
                    let step = TaskStep {
                        effects,
                        next: Some(SubscriberTask { stage: TaskStage::Listening, ..t }),
                    };
                    assert(step@.effects =~= task_advance(t, event@).effects);
                    step
                },
            },
            TaskStage::Listening => match event {
                TaskEvent::Cancelled => {
                    let mut line = String::from_str(
                        "CancellationToken triggered → stopping subscriber ",
                    );
                    let sid = format_uuid(t.subscriber_id);
                    line.append(sid.as_str());
                    t.leave_after(TaskEffect::Log(line))
                },
                TaskEvent::StreamEnded => {
                    let mut line = String::from_str("Redis pubsub ended for subscriber ");
                    let sid = format_uuid(t.subscriber_id);
                    line.append(sid.as_str());
                    t.leave_after(TaskEffect::LogError(line))
                },
                TaskEvent::PayloadUnreadable(text) => {
                    let mut line = String::from_str("Subscriber ");
                    let sid = format_uuid(t.subscriber_id);
                    line.append(sid.as_str());
                    line.append(": failed to parse payload: ");
                    line.append(text.as_str());
                    effects.push(TaskEffect::LogError(line));
                    effects.push(TaskEffect::Listen);
                    let step = TaskStep { effects, next: Some(t) };
                    assert(step@.effects =~= task_advance(t, event@).effects);
                    step
                },
                TaskEvent::Payload(payload) => {
                    let marker = String::from_str("__END__");
                    if payload == marker {
                        let mut line = String::from_str("Publisher ");
                        let pid = format_uuid(t.publisher_id);
                        line.append(pid.as_str());
                        line.append(" sent __END__, stopping subscriber ");
                        let sid = format_uuid(t.subscriber_id);
                        line.append(sid.as_str());
                        t.leave_after(TaskEffect::Log(line))
                    } else {
                        let ghost p = payload@;
                        effects.push(TaskEffect::Forward(payload));
                        let step = TaskStep {
                            effects,
                            next: Some(SubscriberTask { stage: TaskStage::Forwarding, ..t }),
                        };
                        assert(step@.effects =~= seq![TaskEffectView::Forward(p)]);
                        step
                    }
                },
                _ => {
                    effects.push(TaskEffect::Listen);
                    let step = TaskStep { effects, next: Some(t) };
                    assert(step@.effects =~= task_advance(t, event@).effects);
                    step
                },
            },
            TaskStage::Forwarding => match event {
                TaskEvent::ForwardFailed => {
                    let mut line = String::from_str("WebSocket closed → stopping subscriber ");
                    let sid = format_uuid(t.subscriber_id);
                    line.append(sid.as_str());
                    t.leave_after(TaskEffect::Log(line))
                },
                _ => {
                    effects.push(TaskEffect::Listen);
                    let step = TaskStep {
                        effects,
                        next: Some(SubscriberTask { stage: TaskStage::Listening, ..t }),
                    };
                    assert(step@.effects =~= task_advance(t, event@).effects);
                    step
                },
            },
        }
    }
}

/// A listening task forwards each message of its channel, unchanged, to the
/// websocket, unless it is the end marker; once it went out, it listens again.
pub proof fn law_subscriber_forwards_messages(t: SubscriberTask, payload: Seq<char>)
    requires
        t.stage == TaskStage::Listening,
        payload != end_marker(),
    ensures
        task_advance(t, TaskEventView::Payload(payload)) == (TaskStepView {
            effects: seq![TaskEffectView::Forward(payload)],
            next: Some(SubscriberTask { stage: TaskStage::Forwarding, ..t }),
        }),
        task_advance(SubscriberTask { stage: TaskStage::Forwarding, ..t }, TaskEventView::Forwarded)
            == (TaskStepView { effects: seq![TaskEffectView::Listen], next: Some(t) }),
{
}

/// A listening task that gets the end marker, is cancelled, or sees its
/// channel end, stops: it unsubscribes from its publisher's channel and closes
/// the websocket, and nothing follows.
pub proof fn law_subscriber_stops(t: SubscriberTask, event: TaskEventView)
    requires
        t.stage == TaskStage::Listening,
        event == TaskEventView::Payload(end_marker()) || event == TaskEventView::Cancelled || event
            == TaskEventView::StreamEnded,
    ensures
        task_advance(t, event).next is None,
        task_advance(t, event).effects.len() == 4,
        task_advance(t, event).effects[1] == (TaskEffectView::Unsubscribe {
            channel: channel_name(t.publisher_id),
        }),
        task_advance(t, event).effects[2] == TaskEffectView::SendClose,
{
}

/// What a publisher publishes reaches its subscribers unchanged: publishing
/// `data` as `publisher_id` puts it on the very channel that a task of that
/// publisher subscribes to, and a listening task forwards it to its websocket
/// as it is. The end marker is left out: it stops the task instead.
pub proof fn law_published_messages_reach_subscribers(
    subscriber_id: u128,
    publisher_id: u128,
    data: Seq<char>,
    replies: Seq<ReplyView>,
    opened: TaskEventView,
)
    requires
        replies.len() == 5,
        forall|i: int| 0 <= i < 5 ==> !(#[trigger] replies[i] is Failed),
        found(replies[2]),
        data != end_marker(),
        !(opened is PubSubFailed),
    ensures
        run(start_publish_message(publisher_id, data), replies)[4] == (OpEffectView::Publish {
            channel: channel_name(publisher_id),
            payload: data,
        }),
        task_advance(start_task(subscriber_id, publisher_id).next.unwrap(), opened).effects
            == seq![TaskEffectView::Subscribe { channel: channel_name(publisher_id) }],
        task_advance(
            task_at(subscriber_id, publisher_id, TaskStage::Listening),
            TaskEventView::Payload(data),
        ).effects == seq![TaskEffectView::Forward(data)],
{
    law_publish_sends_data_on_channel(publisher_id, data, replies);
}

/// Removing a publisher stops its subscribers: the removal publishes the end
/// marker on the publisher's channel, and a task listening there stops,
/// unsubscribing and closing its websocket.
pub proof fn law_removed_publisher_stops_subscribers(
    subscriber_id: u128,
    publisher_id: u128,
    replies: Seq<ReplyView>,
)
    requires
        replies.len() == 6,
        forall|i: int| 0 <= i < 6 ==> !(#[trigger] replies[i] is Failed),
        found(replies[1]),
    ensures
        run(start_remove_publisher(publisher_id), replies)[3] == (OpEffectView::Publish {
            channel: channel_name(publisher_id),
            payload: end_marker(),
        }),
        task_advance(
            task_at(subscriber_id, publisher_id, TaskStage::Listening),
            TaskEventView::Payload(end_marker()),
        ).next is None,
        task_advance(
            task_at(subscriber_id, publisher_id, TaskStage::Listening),
            TaskEventView::Payload(end_marker()),
        ).effects[1] == (TaskEffectView::Unsubscribe { channel: channel_name(publisher_id) }),
{
    law_remove_ends_then_deletes(publisher_id, replies);
}

} // verus!
