//! One websocket connection to the in-process relay: a client registers as a
//! publisher, or subscribes to a publisher and from then on receives what it
//! publishes. The connection itself is driven by the caller; this module
//! decides, for each thing that happens on it, what is done next.

use crate::state::{lookup, registered, AppState};
use crate::text::{decimal, decimal_text};
use tokio::sync::broadcast::Sender;
use vstd::prelude::*;

verus! {

/// What a client sends to register.
pub struct RegisterMsg {
    /// `publisher` or `subscriber`.
    pub role: String,
    /// For a publisher its name; for a subscriber its own name.
    pub id: Option<String>,
    /// For a subscriber, the publisher it wants to hear.
    pub subscribe_to: Option<String>,
}

/// The view of a registration message.
pub struct RegisterMsgView {
    pub role: Seq<char>,
    pub id: Option<Seq<char>>,
    pub subscribe_to: Option<Seq<char>>,
}

/// The view of an optional string.
pub open spec fn opt_text(o: Option<String>) -> Option<Seq<char>> {
    match o {
        Some(s) => Some(s@),
        None => None,
    }
}

impl View for RegisterMsg {
    type V = RegisterMsgView;

    open spec fn view(&self) -> RegisterMsgView {
        RegisterMsgView {
            role: self.role@,
            id: opt_text(self.id),
            subscribe_to: opt_text(self.subscribe_to),
        }
    }
}

/// The answer to a registration: whether it succeeded, and a text.
pub struct Response {
    pub success: bool,
    pub message: String,
}

/// A successful answer with `message`.
pub fn success_response(message: String) -> (response: Response)
    ensures
        response.success,
        response.message@ == message@,
{
    Response { success: true, message }
}

/// A refusal with `message`.
pub fn error_response(message: String) -> (response: Response)
    ensures
        !response.success,
        response.message@ == message@,
{
    Response { success: false, message }
}

/// What a client's user agent is called when it sends none.
pub open spec fn unknown_agent() -> Seq<char> {
    "Unknown browser"@
}

/// The line that records a new connection from `peer`.
pub open spec fn connection_line(user_agent: Option<Seq<char>>, peer: Seq<char>) -> Seq<char> {
    let agent = match user_agent {
        Some(a) => a,
        None => unknown_agent(),
    };
    "`"@ + agent + "` at "@ + peer + " connected."@
}

/// The line that records a new connection from `peer` with `user_agent`.
pub fn connection_notice(user_agent: Option<String>, peer: &str) -> (line: String)
    ensures
        line@ == connection_line(opt_text(user_agent), peer@),
{
    let mut line = String::from_str("`");
    match user_agent {
        Some(agent) => line.append(agent.as_str()),
        None => line.append("Unknown browser"),
    }
    line.append("` at ");
    line.append(peer);
    line.append(" connected.");
    line
}

/// What happens on a connection, as told by the caller.
pub enum SessionEvent {
    /// The opening ping went out.
    PingSent,
    /// The opening ping could not be sent.
    PingFailed,
    /// A text came in, with what it reads as a registration, if it does.
    Text { message: String, parsed: Option<RegisterMsg> },
    /// Binary data of `len` bytes came in.
    Binary { len: usize },
    /// The client closed the connection.
    Close,
    /// Some other frame came in (ping, pong).
    Other,
    /// The connection yields nothing more.
    Ended,
    /// A message arrived on the channel being relayed.
    Published { message: String },
    /// The channel being relayed yields nothing more.
    RelayEnded,
    /// A relayed message could not be sent to the client.
    DeliveryFailed,
}

/// The view of an event.
pub enum SessionEventView {
    PingSent,
    PingFailed,
    Text { message: Seq<char>, parsed: Option<RegisterMsgView> },
    Binary { len: usize },
    Close,
    Other,
    Ended,
    Published { message: Seq<char> },
    RelayEnded,
    DeliveryFailed,
}

impl View for SessionEvent {
    type V = SessionEventView;

    open spec fn view(&self) -> SessionEventView {
        match self {
            SessionEvent::PingSent => SessionEventView::PingSent,
            SessionEvent::PingFailed => SessionEventView::PingFailed,
            SessionEvent::Text { message, parsed } => SessionEventView::Text {
                message: message@,
                parsed: match parsed {
                    Some(r) => Some(r@),
                    None => None,
                },
            },
            SessionEvent::Binary { len } => SessionEventView::Binary { len: *len },
            SessionEvent::Close => SessionEventView::Close,
            SessionEvent::Other => SessionEventView::Other,
            SessionEvent::Ended => SessionEventView::Ended,
            SessionEvent::Published { message } => SessionEventView::Published { message: message@ },
            SessionEvent::RelayEnded => SessionEventView::RelayEnded,
            SessionEvent::DeliveryFailed => SessionEventView::DeliveryFailed,
        }
    }
}

/// What the caller is to do, in order.
pub enum SessionEffect {
    /// Send the opening ping, and tell whether it went out.
    SendPing,
    /// Print a line.
    Log(String),
    /// Print a line on the error output.
    LogError(String),
    /// Send an answer to the client.
    Respond(Response),
    /// Wait for the next frame from the client.
    Receive,
    /// Listen on this channel and relay what comes on it to the client.
    Relay(Sender<String>),
    /// Send this relayed message to the client, then wait for the next one.
    Deliver(String),
    /// Close the connection: nothing more happens on it.
    Finish,
}

/// The view of an effect.
pub enum SessionEffectView {
    SendPing,
    Log(Seq<char>),
    LogError(Seq<char>),
    Respond(bool, Seq<char>),
    Receive,
    Relay(Sender<String>),
    Deliver(Seq<char>),
    Finish,
}

impl View for SessionEffect {
    type V = SessionEffectView;

    open spec fn view(&self) -> SessionEffectView {
        match self {
            SessionEffect::SendPing => SessionEffectView::SendPing,
            SessionEffect::Log(l) => SessionEffectView::Log(l@),
            SessionEffect::LogError(l) => SessionEffectView::LogError(l@),
            SessionEffect::Respond(r) => SessionEffectView::Respond(r.success, r.message@),
            SessionEffect::Receive => SessionEffectView::Receive,
            SessionEffect::Relay(s) => SessionEffectView::Relay(*s),
            SessionEffect::Deliver(m) => SessionEffectView::Deliver(m@),
            SessionEffect::Finish => SessionEffectView::Finish,
        }
    }
}

/// The views of a sequence of effects.
pub open spec fn session_effects(v: Seq<SessionEffect>) -> Seq<SessionEffectView> {
    v.map_values(|e: SessionEffect| e@)
}

/// Where a connection stands.
pub enum Stage {
    /// The opening ping is on its way.
    AwaitingPing,
    /// Registrations are read and answered.
    Serving,
    /// A subscriber, with this name, hears its publisher's channel.
    Relaying(String),
    /// Nothing more happens.
    Finished,
}

/// The view of a stage.
pub enum StageView {
    AwaitingPing,
    Serving,
    Relaying(Seq<char>),
    Finished,
}

impl View for Stage {
    type V = StageView;

    open spec fn view(&self) -> StageView {
        match self {
            Stage::AwaitingPing => StageView::AwaitingPing,
            Stage::Serving => StageView::Serving,
            Stage::Relaying(s) => StageView::Relaying(s@),
            Stage::Finished => StageView::Finished,
        }
    }
}

/// One connection: the address of the client, its port, and its stage.
pub struct Session {
    pub peer: String,
    pub port: u16,
    pub stage: Stage,
}

/// The view of a connection.
pub struct SessionView {
    pub peer: Seq<char>,
    pub port: u16,
    pub stage: StageView,
}

impl View for Session {
    type V = SessionView;

    open spec fn view(&self) -> SessionView {
        SessionView { peer: self.peer@, port: self.port, stage: self.stage@ }
    }
}

/// The name a subscriber that gives none goes by: `sub_` and its port.
pub open spec fn default_subscriber(port: u16) -> Seq<char> {
    "sub_"@ + decimal(port as nat)
}

/// What registering `id` as a publisher in `before` answers.
pub open spec fn registration_outcome(before: Map<Seq<char>, Sender<String>>, id: Seq<char>) -> Result<
    (),
    Seq<char>,
> {
    if before.contains_key(id) {
        Err(crate::state::already_exists_text(id))
    } else {
        Ok(())
    }
}

/// The effects of a text `message` that reads as registration `reg`, and
/// what the registry and the stage become: `after` relates to `before` as
/// registering or looking up says.
pub open spec fn registration_step(
    port: u16,
    before: Map<Seq<char>, Sender<String>>,
    reg: RegisterMsgView,
    after: Map<Seq<char>, Sender<String>>,
    next: StageView,
    effects: Seq<SessionEffectView>,
) -> bool {
    if reg.role == "publisher"@ {
        match reg.id {
            None => after == before && next == StageView::Serving && effects == seq![
                SessionEffectView::Respond(false, "Publisher ID is required"@),
                SessionEffectView::Receive,
            ],
            Some(id) => {
                let outcome = registration_outcome(before, id);
                &&& registered(before, id, after, outcome)
                &&& next == StageView::Serving
                &&& effects == match outcome {
                    Ok(_) => seq![
                        SessionEffectView::Log("Registered as publisher with id "@ + id),
                        SessionEffectView::Respond(true, "Registered as publisher: "@ + id),
                        SessionEffectView::Receive,
                    ],
                    Err(e) => seq![SessionEffectView::Respond(false, e), SessionEffectView::Receive],
                }
            },
        }
    } else if reg.role == "subscriber"@ {
        let subscriber = match reg.id {
            Some(id) => id,
            None => default_subscriber(port),
        };
        &&& after == before
        &&& match reg.subscribe_to {
            None => next == StageView::Serving && effects == seq![
                SessionEffectView::Respond(false, "Publisher ID to subscribe to is required"@),
                SessionEffectView::Receive,
            ],
            Some(publisher) => match lookup(before, publisher) {
                Ok(sender) => next == StageView::Relaying(subscriber) && effects == seq![
                    SessionEffectView::Log(
                        "Subscriber "@ + subscriber + " subscribed to publisher "@ + publisher,
                    ),
                    SessionEffectView::Respond(true, "Subscribed to publisher: "@ + publisher),
                    SessionEffectView::Relay(sender),
                ],
                Err(error) => next == StageView::Serving && effects == seq![
                    SessionEffectView::Respond(
                        false,
                        "No publisher found with id "@ + publisher + ": "@ + error,
                    ),
                    SessionEffectView::Receive,
                ],
            },
        }
    } else {
        after == before && next == StageView::Serving && effects == seq![
            SessionEffectView::Respond(false, "Invalid role. Use 'publisher' or 'subscriber'"@),
            SessionEffectView::Receive,
        ]
    }
}

/// What one event does to a connection in stage `s.stage` and to the
/// registry: the next stage, the registry after, and the effects in order.
pub open spec fn session_step(
    s: SessionView,
    before: Map<Seq<char>, Sender<String>>,
    event: SessionEventView,
    after: Map<Seq<char>, Sender<String>>,
    next: StageView,
    effects: Seq<SessionEffectView>,
) -> bool {
    match s.stage {
        StageView::AwaitingPing => after == before && if event == SessionEventView::PingSent {
            next == StageView::Serving && effects == seq![
                SessionEffectView::Log("Ping sent to "@ + s.peer),
                SessionEffectView::Receive,
            ]
        } else {
            next == StageView::Finished && effects == seq![
                SessionEffectView::Log("Failed to send ping to "@ + s.peer),
                SessionEffectView::Finish,
            ]
        },
        StageView::Serving => match event {
            SessionEventView::Text { message, parsed } => {
                let says = SessionEffectView::Log("Client says: "@ + message);
                match parsed {
                    None => after == before && next == StageView::Finished && effects == seq![
                        says,
                        SessionEffectView::LogError("Invalid registration message"@),
                        SessionEffectView::Finish,
                    ],
                    Some(reg) => effects.len() > 0 && effects[0] == says && registration_step(
                        s.port,
                        before,
                        reg,
                        after,
                        next,
                        effects.drop_first(),
                    ),
                }
            },
            SessionEventView::Binary { len } => after == before && next == StageView::Serving
                && effects == seq![
                SessionEffectView::Log(
                    "Client sent "@ + decimal(len as nat) + " bytes of binary data"@,
                ),
                SessionEffectView::Receive,
            ],
            SessionEventView::Close => after == before && next == StageView::Finished && effects
                == seq![
                SessionEffectView::Log("Client closed connection"@),
                SessionEffectView::Finish,
            ],
            SessionEventView::Ended => after == before && next == StageView::Finished && effects
                == seq![SessionEffectView::Finish],
            _ => after == before && next == StageView::Serving && effects == seq![
                SessionEffectView::Receive,
            ],
        },
        StageView::Relaying(subscriber) => after == before && match event {
            SessionEventView::Published { message } => next == s.stage && effects == seq![
                SessionEffectView::Deliver(message),
            ],
            SessionEventView::DeliveryFailed => next == StageView::Finished && effects == seq![
                SessionEffectView::Log("Failed to send message to subscriber "@ + subscriber),
                SessionEffectView::Finish,
            ],
            _ => next == StageView::Finished && effects == seq![SessionEffectView::Finish],
        },
        StageView::Finished => after == before && next == StageView::Finished && effects == seq![
            SessionEffectView::Finish,
        ],
    }
}

impl Session {
    /// A new connection from `peer`, on `port`: first the ping goes out.
    pub fn new(peer: String, port: u16) -> (opened: (Session, Vec<SessionEffect>))
        ensures
            opened.0@ == (SessionView { peer: peer@, port, stage: StageView::AwaitingPing }),
            session_effects(opened.1@) == seq![SessionEffectView::SendPing],
    {
        let mut effects: Vec<SessionEffect> = Vec::new();
        effects.push(SessionEffect::SendPing);
        assert(session_effects(effects@) =~= seq![SessionEffectView::SendPing]);
        (Session { peer, port, stage: Stage::AwaitingPing }, effects)
    }

    fn answer_registration(
        port: u16,
        registry: &mut AppState,
        reg: RegisterMsg,
        effects: &mut Vec<SessionEffect>,
    ) -> (next: Stage)
        requires
            old(registry).wf(),
        ensures
            final(registry).wf(),
            session_effects(final(effects)@).len() >= session_effects(old(effects)@).len(),
            session_effects(final(effects)@).subrange(0, old(effects)@.len() as int)
                == session_effects(old(effects)@),
            registration_step(
                port,
                old(registry)@,
                reg@,
                final(registry)@,
                next@,
                session_effects(final(effects)@).subrange(
                    old(effects)@.len() as int,
                    final(effects)@.len() as int,
                ),
            ),
    {
        let ghost start = effects@;
        let publisher_role = String::from_str("publisher");
        let subscriber_role = String::from_str("subscriber");
        if reg.role == publisher_role {
            match reg.id {
                None => {
                    effects.push(
                        SessionEffect::Respond(
                            error_response(String::from_str("Publisher ID is required")),
                        ),
                    );
                    effects.push(SessionEffect::Receive);
                    assert(session_effects(effects@).subrange(0, start.len() as int)
                        =~= session_effects(start));
                    assert(session_effects(effects@).subrange(
                        start.len() as int,
                        effects@.len() as int,
                    ) =~= seq![
                        SessionEffectView::Respond(false, "Publisher ID is required"@),
                        SessionEffectView::Receive,
                    ]);
                    Stage::Serving
                },
                Some(id) => {
                    let name = id.clone();
                    match registry.add_publisher(id) {
                        Ok(()) => {
                            let mut line = String::from_str("Registered as publisher with id ");
                            line.append(name.as_str());
                            let mut answer = String::from_str("Registered as publisher: ");
                            answer.append(name.as_str());
                            effects.push(SessionEffect::Log(line));
                            effects.push(SessionEffect::Respond(success_response(answer)));
                            effects.push(SessionEffect::Receive);
                            assert(session_effects(effects@).subrange(0, start.len() as int)
                                =~= session_effects(start));
                            assert(session_effects(effects@).subrange(
                                start.len() as int,
                                effects@.len() as int,
                            ) =~= seq![
                                SessionEffectView::Log("Registered as publisher with id "@ + name@),
                                SessionEffectView::Respond(
                                    true,
                                    "Registered as publisher: "@ + name@,
                                ),
                                SessionEffectView::Receive,
                            ]);
                        },
                        Err(e) => {
                            let ghost text = e@;
                            effects.push(SessionEffect::Respond(error_response(e)));
                            effects.push(SessionEffect::Receive);
                            assert(session_effects(effects@).subrange(0, start.len() as int)
                                =~= session_effects(start));
                            assert(session_effects(effects@).subrange(
                                start.len() as int,
                                effects@.len() as int,
                            ) =~= seq![
                                SessionEffectView::Respond(false, text),
                                SessionEffectView::Receive,
                            ]);
                        },
                    }
                    Stage::Serving
                },
            }
        } else if reg.role == subscriber_role {
            let subscriber = match reg.id {
                Some(id) => id,
                None => {
                    let mut name = String::from_str("sub_");
                    let digits = decimal_text(port as u64);
                    name.append(digits.as_str());
                    name
                },
            };
            match reg.subscribe_to {
                None => {
                    effects.push(
                        SessionEffect::Respond(
                            error_response(
                                String::from_str("Publisher ID to subscribe to is required"),
                            ),
                        ),
                    );
                    effects.push(SessionEffect::Receive);
                    assert(session_effects(effects@).subrange(0, start.len() as int)
                        =~= session_effects(start));
                    assert(session_effects(effects@).subrange(
                        start.len() as int,
                        effects@.len() as int,
                    ) =~= seq![
                        SessionEffectView::Respond(false, "Publisher ID to subscribe to is required"@),
                        SessionEffectView::Receive,
                    ]);
                    Stage::Serving
                },
                Some(publisher) => match registry.get_publisher(publisher.as_str()) {
                    Ok(sender) => {
                        let mut line = String::from_str("Subscriber ");
                        line.append(subscriber.as_str());
                        line.append(" subscribed to publisher ");
                        line.append(publisher.as_str());
                        let mut answer = String::from_str("Subscribed to publisher: ");
                        answer.append(publisher.as_str());
                        let ghost channel = sender;
                        effects.push(SessionEffect::Log(line));
                        effects.push(SessionEffect::Respond(success_response(answer)));
                        effects.push(SessionEffect::Relay(sender));
                        assert(session_effects(effects@).subrange(0, start.len() as int)
                            =~= session_effects(start));
                        assert(session_effects(effects@).subrange(
                            start.len() as int,
                            effects@.len() as int,
                        ) =~= seq![
                            SessionEffectView::Log(
                                "Subscriber "@ + subscriber@ + " subscribed to publisher "@
                                    + publisher@,
                            ),
                            SessionEffectView::Respond(true, "Subscribed to publisher: "@ + publisher@),
                            SessionEffectView::Relay(channel),
                        ]);
                        Stage::Relaying(subscriber)
                    },
                    Err(error) => {
                        let mut answer = String::from_str("No publisher found with id ");
                        answer.append(publisher.as_str());
                        answer.append(": ");
                        answer.append(error.as_str());
                        effects.push(SessionEffect::Respond(error_response(answer)));
                        effects.push(SessionEffect::Receive);
                        assert(session_effects(effects@).subrange(0, start.len() as int)
                            =~= session_effects(start));
                        assert(session_effects(effects@).subrange(
                            start.len() as int,
                            effects@.len() as int,
                        ) =~= seq![
                            SessionEffectView::Respond(
                                false,
                                "No publisher found with id "@ + publisher@ + ": "@ + error@,
                            ),
                            SessionEffectView::Receive,
                        ]);
                        Stage::Serving
                    },
                },
            }
        } else {
            effects.push(
                SessionEffect::Respond(
                    error_response(
                        String::from_str("Invalid role. Use 'publisher' or 'subscriber'"),
                    ),
                ),
            );
            effects.push(SessionEffect::Receive);
            assert(session_effects(effects@).subrange(0, start.len() as int) =~= session_effects(
                start,
            ));
            assert(session_effects(effects@).subrange(start.len() as int, effects@.len() as int)
                =~= seq![
                SessionEffectView::Respond(false, "Invalid role. Use 'publisher' or 'subscriber'"@),
                SessionEffectView::Receive,
            ]);
            Stage::Serving
        }
    }

    /// Takes in what happened on the connection, updates the registry, and
    /// says what to do next.
    pub fn step(self, registry: &mut AppState, event: SessionEvent) -> (next: (
        Session,
        Vec<SessionEffect>,
    ))
        requires
            old(registry).wf(),
        ensures
            final(registry).wf(),
            next.0.peer@ == self.peer@,
            next.0.port == self.port,
            session_step(
                self@,
                old(registry)@,
                event@,
                final(registry)@,
                next.0.stage@,
                session_effects(next.1@),
            ),
    {
        let ghost s = self@;
        let mut effects: Vec<SessionEffect> = Vec::new();
        let Session { peer, port, stage } = self;
        let next_stage = match stage {
            Stage::AwaitingPing => {
                let sent = match event {
                    SessionEvent::PingSent => true,
                    _ => false,
                };
                if sent {
                    let mut line = String::from_str("Ping sent to ");
                    line.append(peer.as_str());
                    effects.push(SessionEffect::Log(line));
                    effects.push(SessionEffect::Receive);
                    assert(session_effects(effects@) =~= seq![
                        SessionEffectView::Log("Ping sent to "@ + s.peer),
                        SessionEffectView::Receive,
                    ]);
                    Stage::Serving
                } else {
                    let mut line = String::from_str("Failed to send ping to ");
                    line.append(peer.as_str());
                    effects.push(SessionEffect::Log(line));
                    effects.push(SessionEffect::Finish);
                    assert(session_effects(effects@) =~= seq![
                        SessionEffectView::Log("Failed to send ping to "@ + s.peer),
                        SessionEffectView::Finish,
                    ]);
                    Stage::Finished
                }
            },
            Stage::Serving => match event {
                SessionEvent::Text { message, parsed } => {
                    let mut line = String::from_str("Client says: ");
                    line.append(message.as_str());
                    effects.push(SessionEffect::Log(line));
                    match parsed {
                        None => {
                            effects.push(
                                SessionEffect::LogError(
                                    String::from_str("Invalid registration message"),
                                ),
                            );
                            effects.push(SessionEffect::Finish);
                            assert(session_effects(effects@) =~= seq![
                                SessionEffectView::Log("Client says: "@ + message@),
                                SessionEffectView::LogError("Invalid registration message"@),
                                SessionEffectView::Finish,
                            ]);
                            Stage::Finished
                        },
                        Some(reg) => {
                            let ghost first = effects@;
                            let next = Session::answer_registration(
                                port,
                                registry,
                                reg,
                                &mut effects,
                            );
                            proof {
                                assert(first.len() == 1);
                                assert(session_effects(effects@).subrange(1, effects@.len() as int)
                                    =~= session_effects(effects@).drop_first());
                                assert(session_effects(effects@)[0] == session_effects(first)[0]);
                            }
                            next
                        },
                    }
                },
                SessionEvent::Binary { len } => {
                    let mut line = String::from_str("Client sent ");
                    let digits = decimal_text(len as u64);
                    line.append(digits.as_str());
                    line.append(" bytes of binary data");
                    effects.push(SessionEffect::Log(line));
                    effects.push(SessionEffect::Receive);
                    assert(session_effects(effects@) =~= seq![
                        SessionEffectView::Log(
                            "Client sent "@ + decimal(len as nat) + " bytes of binary data"@,
                        ),
                        SessionEffectView::Receive,
                    ]);
                    Stage::Serving
                },
                SessionEvent::Close => {
                    effects.push(SessionEffect::Log(String::from_str("Client closed connection")));
                    effects.push(SessionEffect::Finish);
                    assert(session_effects(effects@) =~= seq![
                        SessionEffectView::Log("Client closed connection"@),
                        SessionEffectView::Finish,
                    ]);
                    Stage::Finished
                },
                SessionEvent::Ended => {
                    effects.push(SessionEffect::Finish);
                    assert(session_effects(effects@) =~= seq![SessionEffectView::Finish]);
                    Stage::Finished
                },
                _ => {
                    effects.push(SessionEffect::Receive);
                    assert(session_effects(effects@) =~= seq![SessionEffectView::Receive]);
                    Stage::Serving
                },
            },
            Stage::Relaying(subscriber) => match event {
                SessionEvent::Published { message } => {
                    let ghost text = message@;
                    effects.push(SessionEffect::Deliver(message));
                    assert(session_effects(effects@) =~= seq![SessionEffectView::Deliver(text)]);
                    Stage::Relaying(subscriber)
                },
                SessionEvent::DeliveryFailed => {
                    let mut line = String::from_str("Failed to send message to subscriber ");
                    line.append(subscriber.as_str());
                    effects.push(SessionEffect::Log(line));
                    effects.push(SessionEffect::Finish);
                    assert(session_effects(effects@) =~= seq![
                        SessionEffectView::Log("Failed to send message to subscriber "@ + subscriber@),
                        SessionEffectView::Finish,
                    ]);
                    Stage::Finished
                },
                _ => {
                    effects.push(SessionEffect::Finish);
                    assert(session_effects(effects@) =~= seq![SessionEffectView::Finish]);
                    Stage::Finished
                },
            },
            Stage::Finished => {
                effects.push(SessionEffect::Finish);
                assert(session_effects(effects@) =~= seq![SessionEffectView::Finish]);
                Stage::Finished
            },
        };
        (Session { peer, port, stage: next_stage }, effects)
    }
}

/// A publisher registered through one connection can be heard through any
/// other: after connection one registers `id` as a publisher, connection two
/// subscribing to `id` is answered with success and relays the very channel
/// that was created for `id`.
pub proof fn law_subscription_follows_registration(
    s1: SessionView,
    s2: SessionView,
    r0: Map<Seq<char>, Sender<String>>,
    r1: Map<Seq<char>, Sender<String>>,
    r2: Map<Seq<char>, Sender<String>>,
    text1: Seq<char>,
    text2: Seq<char>,
    reg1: RegisterMsgView,
    reg2: RegisterMsgView,
    next1: StageView,
    next2: StageView,
    effects1: Seq<SessionEffectView>,
    effects2: Seq<SessionEffectView>,
    id: Seq<char>,
)
    requires
        s1.stage == StageView::Serving,
        s2.stage == StageView::Serving,
        reg1.role == "publisher"@,
        reg1.id == Some(id),
        !r0.contains_key(id),
        session_step(
            s1,
            r0,
            SessionEventView::Text { message: text1, parsed: Some(reg1) },
            r1,
            next1,
            effects1,
        ),
        reg2.role == "subscriber"@,
        reg2.subscribe_to == Some(id),
        session_step(
            s2,
            r1,
            SessionEventView::Text { message: text2, parsed: Some(reg2) },
            r2,
            next2,
            effects2,
        ),
    ensures
        r1.contains_key(id),
        effects1.len() == 4,
        effects1[2] == SessionEffectView::Respond(true, "Registered as publisher: "@ + id),
        r2 == r1,
        next2 is Relaying,
        effects2.len() == 4,
        effects2[2] == SessionEffectView::Respond(true, "Subscribed to publisher: "@ + id),
        effects2[3] == SessionEffectView::Relay(r1[id]),
{
    reveal_strlit("publisher");
    reveal_strlit("subscriber");
    assert(("publisher"@)[0] != ("subscriber"@)[0]);
    assert(reg1.role != "subscriber"@);
    assert(reg2.role != "publisher"@);
    assert(effects1.drop_first().len() == 3);
    assert(effects2.drop_first().len() == 3);
    assert(effects1[2] == effects1.drop_first()[1]);
    assert(effects2[2] == effects2.drop_first()[1]);
    assert(effects2[3] == effects2.drop_first()[2]);
}

/// A connection that relays a channel sends each message of it, unchanged,
/// to its client, and keeps relaying.
pub proof fn law_relay_delivers_messages(
    s: SessionView,
    r0: Map<Seq<char>, Sender<String>>,
    r1: Map<Seq<char>, Sender<String>>,
    message: Seq<char>,
    next: StageView,
    effects: Seq<SessionEffectView>,
)
    requires
        s.stage is Relaying,
        session_step(s, r0, SessionEventView::Published { message }, r1, next, effects),
    ensures
        r1 == r0,
        next == s.stage,
        effects == seq![SessionEffectView::Deliver(message)],
{
}

/// A connection that has finished does nothing more, whatever happens.
pub proof fn law_finished_sessions_stay_finished(
    s: SessionView,
    r0: Map<Seq<char>, Sender<String>>,
    event: SessionEventView,
    r1: Map<Seq<char>, Sender<String>>,
    next: StageView,
    effects: Seq<SessionEffectView>,
)
    requires
        s.stage == StageView::Finished,
        session_step(s, r0, event, r1, next, effects),
    ensures
        r1 == r0,
        next == StageView::Finished,
        effects == seq![SessionEffectView::Finish],
{
}

} // verus!
