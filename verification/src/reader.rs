//! The requests of one client of the store-backed relay, read from its
//! websocket: each is answered, carried out through the relay's state, and
//! acknowledged. Reading and writing the websocket is the caller's work; here
//! each thing read decides what follows.

use crate::core_state::{
    found, law_publish_sends_data_on_channel, law_register_sets_key, law_remove_ends_then_deletes,
    law_subscribe_starts_task, outcome_view, run, start_add_publisher, start_add_subscriber,
    start_publish_message, start_remove_publisher, token_of, unsubscribed, AppState,
    AppStateError, AppStateErrorView, OpEffectView, ReplyView,
};
use crate::store::{
    handle_user_deregister, handle_user_message, handle_user_register, handle_user_subscribe,
    handle_user_unsubscribe, Handling, HandlingView,
};
use crate::text::{decimal, decimal_text, uuid_text};
use tokio_util::sync::CancellationToken;
use vstd::prelude::*;

verus! {

/// A request of a client.
pub enum UserMessage {
    /// Become publisher `user_id`.
    Register { user_id: u128 },
    /// Stop being publisher `user_id`.
    Deregister { user_id: u128 },
    /// Hear publisher `publisher_id` as subscriber `subscriber_id`.
    Subscribe { publisher_id: u128, subscriber_id: u128 },
    /// Stop hearing, as subscriber `subscriber_id`.
    Unsubscribe { subscriber_id: u128 },
    /// Publish `data`, a JSON text, as `publisher_id`.
    Message { publisher_id: u128, data: String },
    /// Ask for statistics, which are not kept.
    GetStats,
}

/// The view of a request.
pub enum UserMessageView {
    Register { user_id: u128 },
    Deregister { user_id: u128 },
    Subscribe { publisher_id: u128, subscriber_id: u128 },
    Unsubscribe { subscriber_id: u128 },
    Message { publisher_id: u128, data: Seq<char> },
    GetStats,
}

impl View for UserMessage {
    type V = UserMessageView;

    open spec fn view(&self) -> UserMessageView {
        match self {
            UserMessage::Register { user_id } => UserMessageView::Register { user_id: *user_id },
            UserMessage::Deregister { user_id } => UserMessageView::Deregister { user_id: *user_id },
            UserMessage::Subscribe { publisher_id, subscriber_id } => UserMessageView::Subscribe {
                publisher_id: *publisher_id,
                subscriber_id: *subscriber_id,
            },
            UserMessage::Unsubscribe { subscriber_id } => UserMessageView::Unsubscribe {
                subscriber_id: *subscriber_id,
            },
            UserMessage::Message { publisher_id, data } => UserMessageView::Message {
                publisher_id: *publisher_id,
                data: data@,
            },
            UserMessage::GetStats => UserMessageView::GetStats,
        }
    }
}

/// How request `m` is handled, and what it does to the tokens of the
/// subscribers: `before` becomes `after`.
pub open spec fn handled(
    m: UserMessageView,
    before: Map<u128, CancellationToken>,
    after: Map<u128, CancellationToken>,
    h: HandlingView,
) -> bool {
    match m {
        UserMessageView::Register { user_id } => after == before && h == (HandlingView {
            step: start_add_publisher(user_id),
            close_after: false,
        }),
        UserMessageView::Deregister { user_id } => after == before && h == (HandlingView {
            step: start_remove_publisher(user_id),
            close_after: true,
        }),
        UserMessageView::Subscribe { publisher_id, subscriber_id } => {
            &&& after.contains_key(subscriber_id)
            &&& after == before.insert(subscriber_id, after[subscriber_id])
            &&& forall|k: u128| #[trigger] before.contains_key(k) ==> before[k] != after[subscriber_id]
            &&& h == (HandlingView {
                step: start_add_subscriber(subscriber_id, publisher_id, after[subscriber_id]),
                close_after: false,
            })
        },
        UserMessageView::Unsubscribe { subscriber_id } => after == before.remove(subscriber_id) && h
            == (HandlingView {
            step: unsubscribed(subscriber_id, token_of(before, subscriber_id)),
            close_after: true,
        }),
        UserMessageView::Message { publisher_id, data } => after == before && h == (HandlingView {
            step: start_publish_message(publisher_id, data),
            close_after: false,
        }),
        UserMessageView::GetStats => false,
    }
}

/// Hands request `m` to its handler. Statistics are not kept, so `m` is not
/// a request for them.
pub fn dispatch(m: UserMessage, state: &mut AppState) -> (handling: Handling)
    requires
        !(m is GetStats),
    ensures
        final(state).store() == old(state).store(),
        handled(m@, old(state)@, final(state)@, handling@),
{
    match m {
        UserMessage::Register { user_id } => handle_user_register(user_id, state),
        UserMessage::Deregister { user_id } => handle_user_deregister(user_id, state),
        UserMessage::Subscribe { publisher_id, subscriber_id } => handle_user_subscribe(
            subscriber_id,
            publisher_id,
            state,
        ),
        UserMessage::Unsubscribe { subscriber_id } => handle_user_unsubscribe(subscriber_id, state),
        UserMessage::Message { publisher_id, data } => handle_user_message(
            publisher_id,
            data,
            state,
        ),
        UserMessage::GetStats => vstd::pervasive::unreached(),
    }
}

/// What was read from the websocket, or what became of a request.
pub enum ReadEvent {
    /// A text frame, with the request it reads as, if it does.
    Text(Option<UserMessage>),
    /// A binary frame of `len` bytes.
    Binary { len: usize },
    /// A close frame.
    Close,
    /// A ping frame.
    Ping,
    /// A pong frame.
    Pong,
    /// The websocket yields nothing more.
    Ended,
    /// The request's operation ended with this outcome.
    Handled(Result<(), AppStateError>),
}

/// The view of an event.
pub enum ReadEventView {
    Text(Option<UserMessageView>),
    Binary { len: usize },
    Close,
    Ping,
    Pong,
    Ended,
    Handled(Result<(), AppStateErrorView>),
}

impl View for ReadEvent {
    type V = ReadEventView;

    open spec fn view(&self) -> ReadEventView {
        match self {
            ReadEvent::Text(m) => ReadEventView::Text(
                match m {
                    Some(m) => Some(m@),
                    None => None,
                },
            ),
            ReadEvent::Binary { len } => ReadEventView::Binary { len: *len },
            ReadEvent::Close => ReadEventView::Close,
            ReadEvent::Ping => ReadEventView::Ping,
            ReadEvent::Pong => ReadEventView::Pong,
            ReadEvent::Ended => ReadEventView::Ended,
            ReadEvent::Handled(r) => ReadEventView::Handled(outcome_view(*r)),
        }
    }
}

/// What the caller is to do, in order.
pub enum ReadEffect {
    /// Print a line.
    Log(String),
    /// Print a line on the error output.
    LogError(String),
    /// Print the request just read, as it was read.
    ShowRequest,
    /// Carry out the operation of the handling and report its outcome.
    Run(Handling),
    /// Send a close frame on the websocket, whatever comes of it.
    SendClose,
    /// Print `context` and the failure on the error output.
    LogFailure { context: String, error: AppStateError },
    /// Send this text to the client.
    Respond(String),
    /// Wait for the next frame.
    Receive,
    /// Stop reading.
    Stop,
}

/// The view of an effect.
pub enum ReadEffectView {
    Log(Seq<char>),
    LogError(Seq<char>),
    ShowRequest,
    Run(HandlingView),
    SendClose,
    LogFailure { context: Seq<char>, error: AppStateErrorView },
    Respond(Seq<char>),
    Receive,
    Stop,
}

impl View for ReadEffect {
    type V = ReadEffectView;

    open spec fn view(&self) -> ReadEffectView {
        match self {
            ReadEffect::Log(l) => ReadEffectView::Log(l@),
            ReadEffect::LogError(l) => ReadEffectView::LogError(l@),
            ReadEffect::ShowRequest => ReadEffectView::ShowRequest,
            ReadEffect::Run(h) => ReadEffectView::Run(h@),
            ReadEffect::SendClose => ReadEffectView::SendClose,
            ReadEffect::LogFailure { context, error } => ReadEffectView::LogFailure {
                context: context@,
                error: error@,
            },
            ReadEffect::Respond(t) => ReadEffectView::Respond(t@),
            ReadEffect::Receive => ReadEffectView::Receive,
            ReadEffect::Stop => ReadEffectView::Stop,
        }
    }
}

/// The views of a sequence of effects.
pub open spec fn read_effects(v: Seq<ReadEffect>) -> Seq<ReadEffectView> {
    v.map_values(|e: ReadEffect| e@)
}

/// Where the reading of a websocket stands.
#[derive(PartialEq, Eq, Structural, Clone, Copy)]
pub enum Reader {
    /// Waiting for the next frame.
    Reading,
    /// Waiting for the outcome of a request; the websocket is closed after
    /// success if `close_after`.
    Handling { close_after: bool },
}

/// The acknowledgement of each frame handled.
pub open spec fn acknowledgement() -> Seq<char> {
    "Success"@
}

/// What a frame that is only recorded does: a line, the acknowledgement, and
/// the wait for the next frame.
pub open spec fn recorded(line: Seq<char>) -> Seq<ReadEffectView> {
    seq![
        ReadEffectView::Log(line),
        ReadEffectView::Respond(acknowledgement()),
        ReadEffectView::Receive,
    ]
}

/// What one event does to the reading of a websocket and to the tokens of
/// the subscribers: the next stage, the tokens after, and the effects.
pub open spec fn read_step(
    r: Reader,
    before: Map<u128, CancellationToken>,
    event: ReadEventView,
    after: Map<u128, CancellationToken>,
    next: Reader,
    effects: Seq<ReadEffectView>,
) -> bool {
    match r {
        Reader::Reading => match event {
            ReadEventView::Text(Some(m)) => {
                &&& effects.len() == 2
                &&& effects[0] == ReadEffectView::ShowRequest
                &&& effects[1] matches ReadEffectView::Run(h) && handled(m, before, after, h)
                    && next == (Reader::Handling { close_after: h.close_after })
            },
            _ => after == before && match event {
                ReadEventView::Text(None) => next == r && effects == seq![
                    ReadEffectView::LogError(
                        "Failed to parse user message: Error parsing message"@,
                    ),
                    ReadEffectView::Stop,
                ],
                ReadEventView::Binary { len } => next == r && effects == recorded(
                    "Received "@ + decimal(len as nat) + " bytes of binary data from "@,
                ),
                ReadEventView::Close => next == r && effects == recorded(
                    "Client  closed connection"@,
                ),
                ReadEventView::Pong => next == r && effects == recorded("Received pong from "@),
                ReadEventView::Ping => next == r && effects == recorded("Received ping from "@),
                ReadEventView::Ended => next == r && effects == seq![ReadEffectView::Stop],
                _ => next == r && effects == seq![ReadEffectView::Receive],
            },
        },
        Reader::Handling { close_after } => after == before && match event {
            ReadEventView::Handled(Err(e)) => next == Reader::Reading && effects == seq![
                ReadEffectView::LogFailure { context: "Error handling message: "@, error: e },
                ReadEffectView::Stop,
            ],
            ReadEventView::Handled(Ok(())) => next == Reader::Reading && effects == if close_after {
                seq![
                    ReadEffectView::SendClose,
                    ReadEffectView::Respond(acknowledgement()),
                    ReadEffectView::Receive,
                ]
            } else {
                seq![ReadEffectView::Respond(acknowledgement()), ReadEffectView::Receive]
            },
            _ => next == r && effects == Seq::<ReadEffectView>::empty(),
        },
    }
}

/// Whether an event is a request for statistics, which are not kept.
pub open spec fn asks_stats(event: ReadEventView) -> bool {
    event matches ReadEventView::Text(Some(UserMessageView::GetStats))
}

fn record(line: String) -> (effects: Vec<ReadEffect>)
    ensures
        read_effects(effects@) == recorded(line@),
{
    let mut effects = Vec::new();
    effects.push(ReadEffect::Log(line));
    effects.push(ReadEffect::Respond(String::from_str("Success")));
    effects.push(ReadEffect::Receive);
    assert(read_effects(effects@) =~= recorded(line@));
    effects
}

impl Reader {
    /// A reader that waits for the first frame.
    pub fn new() -> (reader: Reader)
        ensures
            reader == Reader::Reading,
    {
        Reader::Reading
    }

    /// Takes what happened and says what follows.
    pub fn step(self, state: &mut AppState, event: ReadEvent) -> (next: (Reader, Vec<ReadEffect>))
        requires
            !asks_stats(event@),
        ensures
            final(state).store() == old(state).store(),
            read_step(self, old(state)@, event@, final(state)@, next.0, read_effects(next.1@)),
    {
        let mut effects: Vec<ReadEffect> = Vec::new();
        match self {
            Reader::Reading => match event {
                ReadEvent::Text(Some(m)) => {
                    let handling = dispatch(m, state);
                    let close_after = handling.close_after;
                    effects.push(ReadEffect::ShowRequest);
                    effects.push(ReadEffect::Run(handling));
                    assert(read_effects(effects@)[1] == ReadEffectView::Run(handling@));
                    (Reader::Handling { close_after }, effects)
                },
                ReadEvent::Text(None) => {
                    effects.push(
                        ReadEffect::LogError(
                            String::from_str("Failed to parse user message: Error parsing message"),
                        ),
                    );
                    effects.push(ReadEffect::Stop);
                    assert(read_effects(effects@) =~= seq![
                        ReadEffectView::LogError(
                            "Failed to parse user message: Error parsing message"@,
                        ),
                        ReadEffectView::Stop,
                    ]);
                    (Reader::Reading, effects)
                },
                ReadEvent::Binary { len } => {
                    let mut line = String::from_str("Received ");
                    let digits = decimal_text(len as u64);
                    line.append(digits.as_str());
                    line.append(" bytes of binary data from ");
                    (Reader::Reading, record(line))
                },
                ReadEvent::Close => (
                    Reader::Reading,
                    record(String::from_str("Client  closed connection")),
                ),
                ReadEvent::Pong => (Reader::Reading, record(String::from_str("Received pong from "))),
                ReadEvent::Ping => (Reader::Reading, record(String::from_str("Received ping from "))),
                ReadEvent::Ended => {
                    effects.push(ReadEffect::Stop);
                    assert(read_effects(effects@) =~= seq![ReadEffectView::Stop]);
                    (Reader::Reading, effects)
                },
                ReadEvent::Handled(_) => {
                    effects.push(ReadEffect::Receive);
                    assert(read_effects(effects@) =~= seq![ReadEffectView::Receive]);
                    (Reader::Reading, effects)
                },
            },
            Reader::Handling { close_after } => match event {
                ReadEvent::Handled(Err(error)) => {
                    let ghost e = error@;
                    effects.push(
                        ReadEffect::LogFailure {
                            context: String::from_str("Error handling message: "),
                            error,
                        },
                    );
                    effects.push(ReadEffect::Stop);
                    assert(read_effects(effects@) =~= seq![
                        ReadEffectView::LogFailure { context: "Error handling message: "@, error: e },
                        ReadEffectView::Stop,
                    ]);
                    (Reader::Reading, effects)
                },
                ReadEvent::Handled(Ok(())) => {
                    if close_after {
                        effects.push(ReadEffect::SendClose);
                    }
                    effects.push(ReadEffect::Respond(String::from_str("Success")));
                    effects.push(ReadEffect::Receive);
                    if close_after {
                        assert(read_effects(effects@) =~= seq![
                            ReadEffectView::SendClose,
                            ReadEffectView::Respond(acknowledgement()),
                            ReadEffectView::Receive,
                        ]);
                    } else {
                        assert(read_effects(effects@) =~= seq![
                            ReadEffectView::Respond(acknowledgement()),
                            ReadEffectView::Receive,
                        ]);
                    }
                    (Reader::Reading, effects)
                },
                _ => {
                    assert(read_effects(effects@) =~= Seq::<ReadEffectView>::empty());
                    (self, effects)
                },
            },
        }
    }
}

/// Each request is acknowledged once carried out: after a request read while
/// reading, its successful outcome is answered with the acknowledgement and
/// reading goes on, and the websocket is closed first exactly when the
/// request's handling says so; a failed outcome is reported, neither
/// acknowledged nor followed by a close frame, and ends the reading.
pub proof fn law_requests_are_acknowledged(
    m: UserMessageView,
    t0: Map<u128, CancellationToken>,
    t1: Map<u128, CancellationToken>,
    t2: Map<u128, CancellationToken>,
    middle: Reader,
    last: Reader,
    effects1: Seq<ReadEffectView>,
    effects2: Seq<ReadEffectView>,
    outcome: Result<(), AppStateErrorView>,
)
    requires
        read_step(Reader::Reading, t0, ReadEventView::Text(Some(m)), t1, middle, effects1),
        read_step(middle, t1, ReadEventView::Handled(outcome), t2, last, effects2),
    ensures
        effects1[0] == ReadEffectView::ShowRequest,
        effects1[1] is Run,
        t2 == t1,
        last == Reader::Reading,
        outcome is Ok ==> effects2.last() == ReadEffectView::Receive && effects2[effects2.len()
            - 2] == ReadEffectView::Respond(acknowledgement()),
        outcome is Ok ==> (effects2[0] == ReadEffectView::SendClose <==> (
        m is Deregister || m is Unsubscribe)),
        outcome is Err ==> effects2.len() == 2 && effects2[1] == ReadEffectView::Stop
            && !effects2.contains(ReadEffectView::Respond(acknowledgement()))
            && !effects2.contains(ReadEffectView::SendClose),
{
    if outcome is Err {
        if effects2.contains(ReadEffectView::Respond(acknowledgement())) {
            let i = choose|i: int|
                0 <= i < effects2.len() && effects2[i] == ReadEffectView::Respond(
                    acknowledgement(),
                );
            assert(i == 0 || i == 1);
        }
        if effects2.contains(ReadEffectView::SendClose) {
            let i = choose|i: int| 0 <= i < effects2.len() && effects2[i] == ReadEffectView::SendClose;
            assert(i == 0 || i == 1);
        }
    }
}

/// Unsubscribing a subscriber that has a task cancels the token the task was
/// started with before anything else, and once that succeeded the websocket
/// is closed before the acknowledgement.
pub proof fn law_unsubscribe_cancels_then_closes(
    subscriber_id: u128,
    t0: Map<u128, CancellationToken>,
    t1: Map<u128, CancellationToken>,
    t2: Map<u128, CancellationToken>,
    middle: Reader,
    last: Reader,
    effects1: Seq<ReadEffectView>,
    effects2: Seq<ReadEffectView>,
)
    requires
        t0.contains_key(subscriber_id),
        read_step(
            Reader::Reading,
            t0,
            ReadEventView::Text(Some(UserMessageView::Unsubscribe { subscriber_id })),
            t1,
            middle,
            effects1,
        ),
        read_step(middle, t1, ReadEventView::Handled(Ok(())), t2, last, effects2),
    ensures
        t1 == t0.remove(subscriber_id),
        effects1[1] matches ReadEffectView::Run(h) && h.step.effects[0] == (
        crate::core_state::OpEffectView::Cancel { token: t0[subscriber_id] }),
        effects2[0] == ReadEffectView::SendClose,
{
}

/// Frames that carry no request (binary, close, ping, pong) are logged and
/// acknowledged with `Success`, and reading goes on: the last effect waits
/// for the next frame, nothing stops the reading, and no subscriber changes.
pub proof fn law_other_frames_are_acknowledged(
    t0: Map<u128, CancellationToken>,
    event: ReadEventView,
    t1: Map<u128, CancellationToken>,
    next: Reader,
    effects: Seq<ReadEffectView>,
)
    requires
        event is Binary || event is Close || event is Ping || event is Pong,
        read_step(Reader::Reading, t0, event, t1, next, effects),
    ensures
        next == Reader::Reading,
        t1 == t0,
        effects.len() == 3,
        effects[0] is Log,
        effects[1] == ReadEffectView::Respond("Success"@),
        effects[2] == ReadEffectView::Receive,
        !effects.contains(ReadEffectView::Stop),
{
    if effects.contains(ReadEffectView::Stop) {
        let i = choose|i: int| 0 <= i < effects.len() && effects[i] == ReadEffectView::Stop;
        assert(i == 0 || i == 1 || i == 2);
    }
}

/// `replies` are `n` replies of a store that carries out every request (none
/// is a failure).
pub open spec fn store_agrees(replies: Seq<ReplyView>, n: int) -> bool {
    replies.len() == n && forall|i: int| 0 <= i < n ==> !(#[trigger] replies[i] is Failed)
}

/// A registration request registers: when the store agrees, its operation
/// sets `publisher:` and the publisher's UUID to `online` for 300 seconds and
/// succeeds, and the websocket stays open.
pub proof fn law_register_request_registers(
    user_id: u128,
    t0: Map<u128, CancellationToken>,
    t1: Map<u128, CancellationToken>,
    next: Reader,
    effects: Seq<ReadEffectView>,
    replies: Seq<ReplyView>,
)
    requires
        read_step(
            Reader::Reading,
            t0,
            ReadEventView::Text(Some(UserMessageView::Register { user_id })),
            t1,
            next,
            effects,
        ),
        store_agrees(replies, 2),
    ensures
        t1 == t0,
        effects[1] matches ReadEffectView::Run(h) && !h.close_after && run(h.step, replies)
            == seq![
            OpEffectView::Connect,
            OpEffectView::SetExpiring {
                key: "publisher:"@ + uuid_text(user_id),
                value: "online"@,
                seconds: 300,
            },
            OpEffectView::Finish(Ok(())),
        ],
{
    law_register_sets_key(user_id, replies);
}

/// A withdrawal request withdraws: when the store has the publisher's key
/// and agrees, its operation publishes the end marker `__END__` on the
/// publisher's channel (its UUID), then deletes its key, and succeeds; and
/// the websocket is closed after.
pub proof fn law_deregister_request_withdraws(
    user_id: u128,
    t0: Map<u128, CancellationToken>,
    t1: Map<u128, CancellationToken>,
    next: Reader,
    effects: Seq<ReadEffectView>,
    replies: Seq<ReplyView>,
)
    requires
        read_step(
            Reader::Reading,
            t0,
            ReadEventView::Text(Some(UserMessageView::Deregister { user_id })),
            t1,
            next,
            effects,
        ),
        store_agrees(replies, 6),
        found(replies[1]),
    ensures
        t1 == t0,
        effects[1] matches ReadEffectView::Run(h) && h.close_after && run(h.step, replies).len()
            == 10 && run(h.step, replies)[1] == (OpEffectView::Get {
            key: "publisher:"@ + uuid_text(user_id),
        }) && run(h.step, replies)[3] == (OpEffectView::Publish {
            channel: uuid_text(user_id),
            payload: "__END__"@,
        }) && run(h.step, replies)[6] == (OpEffectView::Delete {
            key: "publisher:"@ + uuid_text(user_id),
        }) && run(h.step, replies)[9] == OpEffectView::Finish(Ok(())),
{
    law_remove_ends_then_deletes(user_id, replies);
}

/// A message request publishes: when the store has the publisher's key and
/// agrees, its operation extends the key's life by 300 seconds and publishes
/// the data, unchanged, on the publisher's channel (its UUID), and succeeds;
/// the websocket stays open.
pub proof fn law_message_request_publishes(
    publisher_id: u128,
    data: Seq<char>,
    t0: Map<u128, CancellationToken>,
    t1: Map<u128, CancellationToken>,
    next: Reader,
    effects: Seq<ReadEffectView>,
    replies: Seq<ReplyView>,
)
    requires
        read_step(
            Reader::Reading,
            t0,
            ReadEventView::Text(Some(UserMessageView::Message { publisher_id, data })),
            t1,
            next,
            effects,
        ),
        store_agrees(replies, 5),
        found(replies[2]),
    ensures
        t1 == t0,
        effects[1] matches ReadEffectView::Run(h) && !h.close_after && run(h.step, replies)
            == seq![
            OpEffectView::Connect,
            OpEffectView::Connect,
            OpEffectView::Get { key: "publisher:"@ + uuid_text(publisher_id) },
            OpEffectView::Expire { key: "publisher:"@ + uuid_text(publisher_id), seconds: 300 },
            OpEffectView::Publish { channel: uuid_text(publisher_id), payload: data },
            OpEffectView::Finish(Ok(())),
        ],
{
    law_publish_sends_data_on_channel(publisher_id, data, replies);
}

/// A subscription request subscribes: a new token, which no earlier task
/// holds, is kept for the subscriber, and when the store has the publisher's
/// key and agrees, the subscriber's task is started on that publisher with
/// that token.
pub proof fn law_subscribe_request_starts_task(
    publisher_id: u128,
    subscriber_id: u128,
    t0: Map<u128, CancellationToken>,
    t1: Map<u128, CancellationToken>,
    next: Reader,
    effects: Seq<ReadEffectView>,
    replies: Seq<ReplyView>,
)
    requires
        read_step(
            Reader::Reading,
            t0,
            ReadEventView::Text(Some(UserMessageView::Subscribe { publisher_id, subscriber_id })),
            t1,
            next,
            effects,
        ),
        store_agrees(replies, 3),
        found(replies[1]),
    ensures
        t1.contains_key(subscriber_id),
        forall|k: u128| #[trigger] t0.contains_key(k) ==> t0[k] != t1[subscriber_id],
        effects[1] matches ReadEffectView::Run(h) && !h.close_after && run(h.step, replies)
            == seq![
            OpEffectView::Connect,
            OpEffectView::Get { key: "publisher:"@ + uuid_text(publisher_id) },
            OpEffectView::Spawn { subscriber_id, publisher_id, token: t1[subscriber_id] },
            OpEffectView::Finish(Ok(())),
        ],
{
    law_subscribe_starts_task(subscriber_id, publisher_id, t1[subscriber_id], replies);
}

/// An unsubscription request of a subscriber with a task cancels that task's
/// token first, forgets the subscriber, and closes the websocket after.
pub proof fn law_unsubscribe_request_cancels(
    subscriber_id: u128,
    t0: Map<u128, CancellationToken>,
    t1: Map<u128, CancellationToken>,
    next: Reader,
    effects: Seq<ReadEffectView>,
)
    requires
        t0.contains_key(subscriber_id),
        read_step(
            Reader::Reading,
            t0,
            ReadEventView::Text(Some(UserMessageView::Unsubscribe { subscriber_id })),
            t1,
            next,
            effects,
        ),
    ensures
        !t1.contains_key(subscriber_id),
        effects[1] matches ReadEffectView::Run(h) && h.close_after && h.step.next is None
            && h.step.effects[0] == (OpEffectView::Cancel { token: t0[subscriber_id] })
            && h.step.effects.last() == OpEffectView::Finish(Ok(())),
{
}

} // verus!
