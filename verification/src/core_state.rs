//! The relay's state kept in a shared store: publishers are keys that expire
//! unless refreshed, messages travel on store channels, and each subscriber
//! has a task that can be cancelled. Talking to the store is the caller's
//! work; here each operation is a sequence of steps that says, for each
//! reply of the store, what to do next.

use crate::text::{
    channel_name, channel_text, format_uuid, publisher_key, publisher_key_text, uuid_text,
};
use redis::{Client, RedisError};
use tokio_util::sync::CancellationToken;
use vstd::hash_map::HashMapWithView;
use vstd::prelude::*;

verus! {

broadcast use vstd::std_specs::hash::group_hash_axioms;

#[verifier::external_type_specification]
#[verifier::external_body]
pub struct ExRedisError(RedisError);

#[verifier::external_type_specification]
#[verifier::external_body]
pub struct ExRedisClient(Client);

#[verifier::external_type_specification]
#[verifier::external_body]
pub struct ExCancellationToken(CancellationToken);

/// Another handle on the store, `Clone` for `redis::Client`.
///
/// Trusted: the clone holds the same connection settings (the derived
/// `Clone` copies them), which the contract states as equality.
#[verifier::external_body]
fn clone_client(client: &Client) -> (copy: Client)
    ensures
        copy == *client,
{
    client.clone()
}

/// A new cancellation token, `CancellationToken::new`.
///
/// Trusted: the token is new: it differs from every token that `held` keeps
/// (it is a new `Arc`, which no live token shares). `held` is only read for
/// the statement. Nothing else is stated of it.
#[verifier::external_body]
fn new_token(held: &HashMapWithView<u128, CancellationToken>) -> (token: CancellationToken)
    ensures
        forall|k: u128| #[trigger] held@.contains_key(k) ==> held@[k] != token,
{
    CancellationToken::new()
}

/// Another handle on a token, `Clone` for `CancellationToken`.
///
/// Trusted: the clone shares the token's state (it clones the `Arc` inside
/// and is cancelled with it), which the contract states as equality.
#[verifier::external_body]
fn clone_token(token: &CancellationToken) -> (copy: CancellationToken)
    ensures
        copy == *token,
{
    token.clone()
}

/// How long, in seconds, a publisher's key lives unless refreshed.
pub const EXPIRY_SECONDS: u64 = 300;

/// The message that tells subscribers that their publisher left.
pub open spec fn end_marker() -> Seq<char> {
    "__END__"@
}

/// The text of the refusal of an unknown publisher.
pub open spec fn no_publisher_text() -> Seq<char> {
    "Publisher doesn't exist"@
}

/// The text of a failure to tell subscribers that their publisher left.
pub open spec fn end_not_published_text() -> Seq<char> {
    "Error publishing __END__ message in remove_publisher"@
}

/// Why an operation on the relay's state failed.
pub enum AppStateError {
    GenericError { error: &'static str },
    RedisConnectionError { error: RedisError },
    RedisExecutionError { error: RedisError },
    LockError,
}

/// The view of a failure.
pub enum AppStateErrorView {
    GenericError(Seq<char>),
    RedisConnectionError(RedisError),
    RedisExecutionError(RedisError),
    LockError,
}

impl View for AppStateError {
    type V = AppStateErrorView;

    open spec fn view(&self) -> AppStateErrorView {
        match self {
            AppStateError::GenericError { error } => AppStateErrorView::GenericError(error@),
            AppStateError::RedisConnectionError { error } => AppStateErrorView::RedisConnectionError(
                *error,
            ),
            AppStateError::RedisExecutionError { error } => AppStateErrorView::RedisExecutionError(
                *error,
            ),
            AppStateError::LockError => AppStateErrorView::LockError,
        }
    }
}

/// The view of the outcome of an operation.
pub open spec fn outcome_view(r: Result<(), AppStateError>) -> Result<(), AppStateErrorView> {
    match r {
        Ok(()) => Ok(()),
        Err(e) => Err(e@),
    }
}

/// What the store answered to the last request.
pub enum Reply {
    /// A connection is open.
    Connected,
    /// The value read, if there is one.
    Value(Option<String>),
    /// The command was carried out.
    Done,
    /// The store could not be reached or refused the command.
    Failed(RedisError),
}

/// The view of a reply.
pub enum ReplyView {
    Connected,
    Value(Option<Seq<char>>),
    Done,
    Failed(RedisError),
}

impl View for Reply {
    type V = ReplyView;

    open spec fn view(&self) -> ReplyView {
        match self {
            Reply::Connected => ReplyView::Connected,
            Reply::Value(v) => ReplyView::Value(
                match v {
                    Some(s) => Some(s@),
                    None => None,
                },
            ),
            Reply::Done => ReplyView::Done,
            Reply::Failed(e) => ReplyView::Failed(*e),
        }
    }
}

/// What the caller is to do, in order. Each request to the store is the last
/// effect of its step, and its reply is handed to the next one.
pub enum OpEffect {
    /// Open a connection to the store; the commands after it use it.
    Connect,
    /// Read the value of `key`.
    Get { key: String },
    /// Set `key` to `value`, to expire after `seconds`.
    SetExpiring { key: String, value: String, seconds: u64 },
    /// Make `key` expire after `seconds` from now.
    Expire { key: String, seconds: u64 },
    /// Delete `key`.
    Delete { key: String },
    /// Publish `payload` on `channel`.
    Publish { channel: String, payload: String },
    /// Print a line.
    Log(String),
    /// Start the task of subscriber `subscriber_id` on `publisher_id`, to stop
    /// when `token` is cancelled.
    Spawn { subscriber_id: u128, publisher_id: u128, token: CancellationToken },
    /// Cancel `token`, which stops the task started with it.
    Cancel { token: CancellationToken },
    /// The operation is over, with this outcome.
    Finish(Result<(), AppStateError>),
}

/// The view of an effect.
pub enum OpEffectView {
    Connect,
    Get { key: Seq<char> },
    SetExpiring { key: Seq<char>, value: Seq<char>, seconds: u64 },
    Expire { key: Seq<char>, seconds: u64 },
    Delete { key: Seq<char> },
    Publish { channel: Seq<char>, payload: Seq<char> },
    Log(Seq<char>),
    Spawn { subscriber_id: u128, publisher_id: u128, token: CancellationToken },
    Cancel { token: CancellationToken },
    Finish(Result<(), AppStateErrorView>),
}

impl View for OpEffect {
    type V = OpEffectView;

    open spec fn view(&self) -> OpEffectView {
        match self {
            OpEffect::Connect => OpEffectView::Connect,
            OpEffect::Get { key } => OpEffectView::Get { key: key@ },
            OpEffect::SetExpiring { key, value, seconds } => OpEffectView::SetExpiring {
                key: key@,
                value: value@,
                seconds: *seconds,
            },
            OpEffect::Expire { key, seconds } => OpEffectView::Expire { key: key@, seconds: *seconds },
            OpEffect::Delete { key } => OpEffectView::Delete { key: key@ },
            OpEffect::Publish { channel, payload } => OpEffectView::Publish {
                channel: channel@,
                payload: payload@,
            },
            OpEffect::Log(l) => OpEffectView::Log(l@),
            OpEffect::Spawn { subscriber_id, publisher_id, token } => OpEffectView::Spawn {
                subscriber_id: *subscriber_id,
                publisher_id: *publisher_id,
                token: *token,
            },
            OpEffect::Cancel { token } => OpEffectView::Cancel { token: *token },
            OpEffect::Finish(r) => OpEffectView::Finish(outcome_view(*r)),
        }
    }
}

/// The views of a sequence of effects.
pub open spec fn op_effects(v: Seq<OpEffect>) -> Seq<OpEffectView> {
    v.map_values(|e: OpEffect| e@)
}

/// An operation under way, by the reply it waits for.
pub enum Operation {
    /// Registering `id`: waiting for a connection.
    RegisterConnecting { id: u128 },
    /// Registering: waiting for the key to be set.
    RegisterStoring,
    /// Removing `id`: waiting for a connection to look it up.
    DeregisterConnectingToCheck { id: u128 },
    /// Removing `id`: waiting for its key to be read.
    DeregisterChecking { id: u128 },
    /// Removing `id`: waiting for a connection to tell its subscribers.
    DeregisterConnectingToEnd { id: u128 },
    /// Removing `id`: waiting for the end marker to be published.
    DeregisterEnding { id: u128 },
    /// Removing `id`: waiting for a connection to delete its key.
    DeregisterConnectingToDelete { id: u128 },
    /// Removing `id`: waiting for its key to be deleted.
    DeregisterDeleting { id: u128 },
    /// Subscribing: waiting for a connection.
    SubscribeConnecting { subscriber_id: u128, publisher_id: u128, token: CancellationToken },
    /// Subscribing: waiting for the publisher's key to be read.
    SubscribeChecking { subscriber_id: u128, publisher_id: u128, token: CancellationToken },
    /// Subscribing: waiting for the task to be started.
    SubscribeSpawning,
    /// Publishing `data` as `id`: waiting for a first connection.
    PublishConnecting { id: u128, data: String },
    /// Publishing: waiting for a second connection.
    PublishConnectingAgain { id: u128, data: String },
    /// Publishing: waiting for the publisher's key to be read.
    PublishChecking { id: u128, data: String },
    /// Publishing: waiting for the key's life to be extended.
    PublishExtending { id: u128, data: String },
    /// Publishing: waiting for the message to be published.
    PublishSending,
}

/// The view of an operation.
pub enum OperationView {
    RegisterConnecting { id: u128 },
    RegisterStoring,
    DeregisterConnectingToCheck { id: u128 },
    DeregisterChecking { id: u128 },
    DeregisterConnectingToEnd { id: u128 },
    DeregisterEnding { id: u128 },
    DeregisterConnectingToDelete { id: u128 },
    DeregisterDeleting { id: u128 },
    SubscribeConnecting { subscriber_id: u128, publisher_id: u128, token: CancellationToken },
    SubscribeChecking { subscriber_id: u128, publisher_id: u128, token: CancellationToken },
    SubscribeSpawning,
    PublishConnecting { id: u128, data: Seq<char> },
    PublishConnectingAgain { id: u128, data: Seq<char> },
    PublishChecking { id: u128, data: Seq<char> },
    PublishExtending { id: u128, data: Seq<char> },
    PublishSending,
}

impl View for Operation {
    type V = OperationView;

    open spec fn view(&self) -> OperationView {
        match self {
            Operation::RegisterConnecting { id } => OperationView::RegisterConnecting { id: *id },
            Operation::RegisterStoring => OperationView::RegisterStoring,
            Operation::DeregisterConnectingToCheck { id } =>
                OperationView::DeregisterConnectingToCheck { id: *id },
            Operation::DeregisterChecking { id } => OperationView::DeregisterChecking { id: *id },
            Operation::DeregisterConnectingToEnd { id } => OperationView::DeregisterConnectingToEnd {
                id: *id,
            },
            Operation::DeregisterEnding { id } => OperationView::DeregisterEnding { id: *id },
            Operation::DeregisterConnectingToDelete { id } =>
                OperationView::DeregisterConnectingToDelete { id: *id },
            Operation::DeregisterDeleting { id } => OperationView::DeregisterDeleting { id: *id },
            Operation::SubscribeConnecting { subscriber_id, publisher_id, token } =>
                OperationView::SubscribeConnecting {
                subscriber_id: *subscriber_id,
                publisher_id: *publisher_id,
                token: *token,
            },
            Operation::SubscribeChecking { subscriber_id, publisher_id, token } =>
                OperationView::SubscribeChecking {
                subscriber_id: *subscriber_id,
                publisher_id: *publisher_id,
                token: *token,
            },
            Operation::SubscribeSpawning => OperationView::SubscribeSpawning,
            Operation::PublishConnecting { id, data } => OperationView::PublishConnecting {
                id: *id,
                data: data@,
            },
            Operation::PublishConnectingAgain { id, data } => OperationView::PublishConnectingAgain {
                id: *id,
                data: data@,
            },
            Operation::PublishChecking { id, data } => OperationView::PublishChecking {
                id: *id,
                data: data@,
            },
            Operation::PublishExtending { id, data } => OperationView::PublishExtending {
                id: *id,
                data: data@,
            },
            Operation::PublishSending => OperationView::PublishSending,
        }
    }
}

/// One step of an operation: the effects to carry out in order, and the
/// operation that waits for the reply to the last of them, unless it is over.
pub struct Step {
    pub effects: Vec<OpEffect>,
    pub next: Option<Operation>,
}

/// The view of a step.
pub struct StepView {
    pub effects: Seq<OpEffectView>,
    pub next: Option<OperationView>,
}

impl View for Step {
    type V = StepView;

    open spec fn view(&self) -> StepView {
        StepView {
            effects: op_effects(self.effects@),
            next: match self.next {
                Some(op) => Some(op@),
                None => None,
            },
        }
    }
}

/// A step that goes on to `next`.
pub open spec fn go(effects: Seq<OpEffectView>, next: OperationView) -> StepView {
    StepView { effects, next: Some(next) }
}

/// A step that ends the operation.
pub open spec fn end(effects: Seq<OpEffectView>) -> StepView {
    StepView { effects, next: None }
}

/// The end of an operation with `outcome`.
pub open spec fn finish(outcome: Result<(), AppStateErrorView>) -> OpEffectView {
    OpEffectView::Finish(outcome)
}

/// The end of an operation that could not reach the store.
pub open spec fn connection_failure(e: RedisError) -> StepView {
    end(seq![finish(Err(AppStateErrorView::RedisConnectionError(e)))])
}

/// The end of an operation whose command the store refused.
pub open spec fn execution_failure(e: RedisError) -> StepView {
    end(seq![finish(Err(AppStateErrorView::RedisExecutionError(e)))])
}

/// The end of an operation on an unknown publisher.
pub open spec fn unknown_publisher() -> StepView {
    end(seq![finish(Err(AppStateErrorView::GenericError(no_publisher_text())))])
}

/// A successful end.
pub open spec fn success() -> StepView {
    end(seq![finish(Ok(()))])
}

/// Whether a read found a value.
pub open spec fn found(reply: ReplyView) -> bool {
    reply matches ReplyView::Value(Some(_))
}

/// What an operation does with the store's reply: the effects that follow and
/// the operation that waits for the next reply. A reply `Failed` to a request
/// ends the operation with an error; any other reply counts as success, and a
/// read finds its key only if it gives a value.
pub open spec fn advance(op: OperationView, reply: ReplyView) -> StepView {
    match op {
        OperationView::RegisterConnecting { id } => match reply {
            ReplyView::Failed(e) => connection_failure(e),
            _ => go(
                seq![
                    OpEffectView::SetExpiring {
                        key: publisher_key(id),
                        value: "online"@,
                        seconds: EXPIRY_SECONDS,
                    },
                ],
                OperationView::RegisterStoring,
            ),
        },
        OperationView::RegisterStoring => match reply {
            ReplyView::Failed(e) => execution_failure(e),
            _ => success(),
        },
        OperationView::DeregisterConnectingToCheck { id } => match reply {
            ReplyView::Failed(e) => connection_failure(e),
            _ => go(
                seq![OpEffectView::Get { key: publisher_key(id) }],
                OperationView::DeregisterChecking { id },
            ),
        },
        OperationView::DeregisterChecking { id } => match reply {
            ReplyView::Failed(e) => execution_failure(e),
            _ => if found(reply) {
                go(seq![OpEffectView::Connect], OperationView::DeregisterConnectingToEnd { id })
            } else {
                unknown_publisher()
            },
        },
        OperationView::DeregisterConnectingToEnd { id } => match reply {
            ReplyView::Failed(e) => connection_failure(e),
            _ => go(
                seq![OpEffectView::Publish { channel: channel_name(id), payload: end_marker() }],
                OperationView::DeregisterEnding { id },
            ),
        },
        OperationView::DeregisterEnding { id } => match reply {
            ReplyView::Failed(_) => end(
                seq![finish(Err(AppStateErrorView::GenericError(end_not_published_text())))],
            ),
            _ => go(
                seq![
                    OpEffectView::Log("Published __END__ for publisher "@ + uuid_text(id)),
                    OpEffectView::Connect,
                ],
                OperationView::DeregisterConnectingToDelete { id },
            ),
        },
        OperationView::DeregisterConnectingToDelete { id } => match reply {
            ReplyView::Failed(e) => connection_failure(e),
            _ => go(
                seq![OpEffectView::Delete { key: publisher_key(id) }],
                OperationView::DeregisterDeleting { id },
            ),
        },
        OperationView::DeregisterDeleting { id } => match reply {
            ReplyView::Failed(e) => execution_failure(e),
            _ => end(
                seq![
                    OpEffectView::Log("Deleted publisher key "@ + publisher_key(id)),
                    OpEffectView::Log("Publisher "@ + uuid_text(id) + " successfully deregistered"@),
                    finish(Ok(())),
                ],
            ),
        },
        OperationView::SubscribeConnecting { subscriber_id, publisher_id, token } => match reply {
            ReplyView::Failed(e) => connection_failure(e),
            _ => go(
                seq![OpEffectView::Get { key: publisher_key(publisher_id) }],
                OperationView::SubscribeChecking { subscriber_id, publisher_id, token },
            ),
        },
        OperationView::SubscribeChecking { subscriber_id, publisher_id, token } => match reply {
            ReplyView::Failed(e) => execution_failure(e),
            _ => if found(reply) {
                go(
                    seq![OpEffectView::Spawn { subscriber_id, publisher_id, token }],
                    OperationView::SubscribeSpawning,
                )
            } else {
                unknown_publisher()
            },
        },
        OperationView::SubscribeSpawning => success(),
        OperationView::PublishConnecting { id, data } => match reply {
            ReplyView::Failed(e) => connection_failure(e),
            _ => go(seq![OpEffectView::Connect], OperationView::PublishConnectingAgain { id, data }),
        },
        OperationView::PublishConnectingAgain { id, data } => match reply {
            ReplyView::Failed(e) => connection_failure(e),
            _ => go(
                seq![OpEffectView::Get { key: publisher_key(id) }],
                OperationView::PublishChecking { id, data },
            ),
        },
        OperationView::PublishChecking { id, data } => match reply {
            ReplyView::Failed(e) => execution_failure(e),
            _ => if found(reply) {
                go(
                    seq![OpEffectView::Expire { key: publisher_key(id), seconds: EXPIRY_SECONDS }],
                    OperationView::PublishExtending { id, data },
                )
            } else {
                unknown_publisher()
            },
        },
        OperationView::PublishExtending { id, data } => match reply {
            ReplyView::Failed(e) => execution_failure(e),
            _ => go(
                seq![OpEffectView::Publish { channel: channel_name(id), payload: data }],
                OperationView::PublishSending,
            ),
        },
        OperationView::PublishSending => match reply {
            ReplyView::Failed(e) => execution_failure(e),
            _ => success(),
        },
    }
}

/// The first step of registering publisher `id`.
pub open spec fn start_add_publisher(id: u128) -> StepView {
    go(seq![OpEffectView::Connect], OperationView::RegisterConnecting { id })
}

/// The first step of removing publisher `id`.
pub open spec fn start_remove_publisher(id: u128) -> StepView {
    go(seq![OpEffectView::Connect], OperationView::DeregisterConnectingToCheck { id })
}

/// The first step of subscribing `subscriber_id` to `publisher_id` with `token`.
pub open spec fn start_add_subscriber(
    subscriber_id: u128,
    publisher_id: u128,
    token: CancellationToken,
) -> StepView {
    go(
        seq![OpEffectView::Connect],
        OperationView::SubscribeConnecting { subscriber_id, publisher_id, token },
    )
}

/// The first step of publishing `data` as `id`.
pub open spec fn start_publish_message(id: u128, data: Seq<char>) -> StepView {
    go(seq![OpEffectView::Connect], OperationView::PublishConnecting { id, data })
}

/// The token kept for subscriber `id` in `tokens`, if there is one.
pub open spec fn token_of(tokens: Map<u128, CancellationToken>, id: u128) -> Option<
    CancellationToken,
> {
    if tokens.contains_key(id) {
        Some(tokens[id])
    } else {
        None
    }
}

/// The only step of unsubscribing `id`, whose task was started with `token`
/// if it has one: that token is cancelled, and the outcome is success.
pub open spec fn unsubscribed(id: u128, token: Option<CancellationToken>) -> StepView {
    match token {
        Some(t) => end(
            seq![
                OpEffectView::Cancel { token: t },
                OpEffectView::Log(
                    "Unsubscribed subscriber "@ + uuid_text(id) + " and cancelled task"@,
                ),
                finish(Ok(())),
            ],
        ),
        None => end(
            seq![
                OpEffectView::Log("Unsubscribe requested, but no task found for "@ + uuid_text(id)),
                finish(Ok(())),
            ],
        ),
    }
}

fn single(effect: OpEffect) -> (effects: Vec<OpEffect>)
    ensures
        op_effects(effects@) == seq![effect@],
{
    let mut effects = Vec::new();
    effects.push(effect);
    assert(op_effects(effects@) =~= seq![effect@]);
    effects
}

fn pair(first: OpEffect, second: OpEffect) -> (effects: Vec<OpEffect>)
    ensures
        op_effects(effects@) == seq![first@, second@],
{
    let mut effects = Vec::new();
    effects.push(first);
    effects.push(second);
    assert(op_effects(effects@) =~= seq![first@, second@]);
    effects
}

fn triple(first: OpEffect, second: OpEffect, third: OpEffect) -> (effects: Vec<OpEffect>)
    ensures
        op_effects(effects@) == seq![first@, second@, third@],
{
    let mut effects = Vec::new();
    effects.push(first);
    effects.push(second);
    effects.push(third);
    assert(op_effects(effects@) =~= seq![first@, second@, third@]);
    effects
}

fn connection_failed(e: RedisError) -> (step: Step)
    ensures
        step@ == connection_failure(e),
{
    Step { effects: single(OpEffect::Finish(Err(AppStateError::RedisConnectionError { error: e }))), next: None }
}

fn execution_failed(e: RedisError) -> (step: Step)
    ensures
        step@ == execution_failure(e),
{
    Step { effects: single(OpEffect::Finish(Err(AppStateError::RedisExecutionError { error: e }))), next: None }
}

fn publisher_unknown() -> (step: Step)
    ensures
        step@ == unknown_publisher(),
{
    let error: &'static str = "Publisher doesn't exist";
    Step {
        effects: single(OpEffect::Finish(Err(AppStateError::GenericError { error }))),
        next: None,
    }
}

fn succeeded() -> (step: Step)
    ensures
        step@ == success(),
{
    Step { effects: single(OpEffect::Finish(Ok(()))), next: None }
}

fn continue_with(effect: OpEffect, next: Operation) -> (step: Step)
    ensures
        step@ == go(seq![effect@], next@),
{
    Step { effects: single(effect), next: Some(next) }
}

fn is_found(reply: &Reply) -> (yes: bool)
    ensures
        yes == found(reply@),
{
    match reply {
        Reply::Value(Some(_)) => true,
        _ => false,
    }
}

impl Operation {
    /// Takes the store's reply to the last request and says what follows.
    pub fn resume(self, reply: Reply) -> (step: Step)
        ensures
            step@ == advance(self@, reply@),
    {
        match self {
            Operation::RegisterConnecting { id } => match reply {
                Reply::Failed(e) => connection_failed(e),
                _ => continue_with(
                    OpEffect::SetExpiring {
                        key: publisher_key_text(id),
                        value: String::from_str("online"),
                        seconds: EXPIRY_SECONDS,
                    },
                    Operation::RegisterStoring,
                ),
            },
            Operation::RegisterStoring => match reply {
                Reply::Failed(e) => execution_failed(e),
                _ => succeeded(),
            },
            Operation::DeregisterConnectingToCheck { id } => match reply {
                Reply::Failed(e) => connection_failed(e),
                _ => continue_with(
                    OpEffect::Get { key: publisher_key_text(id) },
                    Operation::DeregisterChecking { id },
                ),
            },
            Operation::DeregisterChecking { id } => {
                let present = is_found(&reply);
                match reply {
                    Reply::Failed(e) => execution_failed(e),
                    _ => if present {
                        continue_with(OpEffect::Connect, Operation::DeregisterConnectingToEnd { id })
                    } else {
                        publisher_unknown()
                    },
                }
            },
            Operation::DeregisterConnectingToEnd { id } => match reply {
                Reply::Failed(e) => connection_failed(e),
                _ => continue_with(
                    OpEffect::Publish {
                        channel: channel_text(id),
                        payload: String::from_str("__END__"),
                    },
                    Operation::DeregisterEnding { id },
                ),
            },
            Operation::DeregisterEnding { id } => match reply {
                Reply::Failed(_) => {
                    let error: &'static str =
                        "Error publishing __END__ message in remove_publisher";
                    Step {
                        effects: single(OpEffect::Finish(Err(AppStateError::GenericError { error }))),
                        next: None,
                    }
                },
                _ => {
                    let mut line = String::from_str("Published __END__ for publisher ");
                    let ident = format_uuid(id);
                    line.append(ident.as_str());
                    Step {
                        effects: pair(OpEffect::Log(line), OpEffect::Connect),
                        next: Some(Operation::DeregisterConnectingToDelete { id }),
                    }
                },
            },
            Operation::DeregisterConnectingToDelete { id } => match reply {
                Reply::Failed(e) => connection_failed(e),
                _ => continue_with(
                    OpEffect::Delete { key: publisher_key_text(id) },
                    Operation::DeregisterDeleting { id },
                ),
            },
            Operation::DeregisterDeleting { id } => match reply {
                Reply::Failed(e) => execution_failed(e),
                _ => {
                    let mut deleted = String::from_str("Deleted publisher key ");
                    let key = publisher_key_text(id);
                    deleted.append(key.as_str());
                    let mut done = String::from_str("Publisher ");
                    let ident = format_uuid(id);
                    done.append(ident.as_str());
                    done.append(" successfully deregistered");
                    Step {
                        effects: triple(
                            OpEffect::Log(deleted),
                            OpEffect::Log(done),
                            OpEffect::Finish(Ok(())),
                        ),
                        next: None,
                    }
                },
            },
            Operation::SubscribeConnecting { subscriber_id, publisher_id, token } => match reply {
                Reply::Failed(e) => connection_failed(e),
                _ => continue_with(
                    OpEffect::Get { key: publisher_key_text(publisher_id) },
                    Operation::SubscribeChecking { subscriber_id, publisher_id, token },
                ),
            },
            Operation::SubscribeChecking { subscriber_id, publisher_id, token } => {
                let present = is_found(&reply);
                match reply {
                    Reply::Failed(e) => execution_failed(e),
                    _ => if present {
                        continue_with(
                            OpEffect::Spawn { subscriber_id, publisher_id, token },
                            Operation::SubscribeSpawning,
                        )
                    } else {
                        publisher_unknown()
                    },
                }
            },
            Operation::SubscribeSpawning => succeeded(),
            Operation::PublishConnecting { id, data } => match reply {
                Reply::Failed(e) => connection_failed(e),
                _ => continue_with(OpEffect::Connect, Operation::PublishConnectingAgain { id, data }),
            },
            Operation::PublishConnectingAgain { id, data } => match reply {
                Reply::Failed(e) => connection_failed(e),
                _ => continue_with(
                    OpEffect::Get { key: publisher_key_text(id) },
                    Operation::PublishChecking { id, data },
                ),
            },
            Operation::PublishChecking { id, data } => {
                let present = is_found(&reply);
                match reply {
                    Reply::Failed(e) => execution_failed(e),
                    _ => if present {
                        continue_with(
                            OpEffect::Expire { key: publisher_key_text(id), seconds: EXPIRY_SECONDS },
                            Operation::PublishExtending { id, data },
                        )
                    } else {
                        publisher_unknown()
                    },
                }
            },
            Operation::PublishExtending { id, data } => match reply {
                Reply::Failed(e) => execution_failed(e),
                _ => continue_with(
                    OpEffect::Publish { channel: channel_text(id), payload: data },
                    Operation::PublishSending,
                ),
            },
            Operation::PublishSending => match reply {
                Reply::Failed(e) => execution_failed(e),
                _ => succeeded(),
            },
        }
    }
}

/// The relay's own state: the store it talks to, and the cancellation token
/// of each subscriber's task, by subscriber.
pub struct AppState {
    redis: Client,
    subscriber_cancel: HashMapWithView<u128, CancellationToken>,
}

impl View for AppState {
    type V = Map<u128, CancellationToken>;

    closed spec fn view(&self) -> Map<u128, CancellationToken> {
        self.subscriber_cancel@
    }
}

impl AppState {
    /// The store this state talks to.
    pub closed spec fn store(&self) -> Client {
        self.redis
    }

    /// A state that talks to the store `redis` and knows no subscriber.
    pub fn new(redis: Client) -> (state: Self)
        ensures
            state@ == Map::<u128, CancellationToken>::empty(),
            state.store() == redis,
    {
        AppState { redis, subscriber_cancel: HashMapWithView::new() }
    }

    /// Another handle on the store.
    pub fn redis(&self) -> (client: Client)
        ensures
            client == self.store(),
    {
        clone_client(&self.redis)
    }

    /// Registers publisher `id`: its key is set to `online`, to expire unless
    /// refreshed.
    pub fn add_publisher(&self, id: u128) -> (step: Step)
        ensures
            step@ == start_add_publisher(id),
    {
        continue_with(OpEffect::Connect, Operation::RegisterConnecting { id })
    }

    /// Removes publisher `id`, if its key is there: its subscribers are told
    /// to stop, then its key is deleted.
    pub fn remove_publisher(&self, id: u128) -> (step: Step)
        ensures
            step@ == start_remove_publisher(id),
    {
        continue_with(OpEffect::Connect, Operation::DeregisterConnectingToCheck { id })
    }

    /// Subscribes `id` to `publisher_id`: a new token is kept for `id`, in
    /// place of any earlier one, and the subscriber's task starts with it if
    /// the publisher's key is there.
    pub fn add_subscriber(&mut self, id: u128, publisher_id: u128) -> (step: Step)
        ensures
            final(self).store() == old(self).store(),
            final(self)@.contains_key(id),
            final(self)@ == old(self)@.insert(id, final(self)@[id]),
            forall|k: u128|
                #[trigger] old(self)@.contains_key(k) ==> old(self)@[k] != final(self)@[id],
            step@ == start_add_subscriber(id, publisher_id, final(self)@[id]),
    {
        let token = new_token(&self.subscriber_cancel);
        let kept = clone_token(&token);
        self.subscriber_cancel.insert(id, kept);
        continue_with(
            OpEffect::Connect,
            Operation::SubscribeConnecting { subscriber_id: id, publisher_id, token },
        )
    }

    /// Unsubscribes `id`: its token, if it has one, is forgotten and handed
    /// out to be cancelled, which stops its task.
    pub fn remove_subscriber(&mut self, id: u128) -> (step: Step)
        ensures
            final(self).store() == old(self).store(),
            final(self)@ == old(self)@.remove(id),
            step@ == unsubscribed(id, token_of(old(self)@, id)),
    {
        let ident = format_uuid(id);
        match self.subscriber_cancel.remove(&id) {
            Some(token) => {
                let mut line = String::from_str("Unsubscribed subscriber ");
                line.append(ident.as_str());
                line.append(" and cancelled task");
                Step {
                    effects: triple(
                        OpEffect::Cancel { token },
                        OpEffect::Log(line),
                        OpEffect::Finish(Ok(())),
                    ),
                    next: None,
                }
            },
            None => {
                let mut line = String::from_str("Unsubscribe requested, but no task found for ");
                line.append(ident.as_str());
                Step { effects: pair(OpEffect::Log(line), OpEffect::Finish(Ok(()))), next: None }
            },
        }
    }

    /// Publishes `data` as publisher `id`, if its key is there, and refreshes
    /// the key's life.
    pub fn publish_message(&self, id: u128, data: String) -> (step: Step)
        ensures
            step@ == start_publish_message(id, data@),
    {
        continue_with(OpEffect::Connect, Operation::PublishConnecting { id, data })
    }
}

/// The effects of an operation that begins with `step` and gets `replies`,
/// one per request, until it ends or the replies run out.
pub open spec fn run(step: StepView, replies: Seq<ReplyView>) -> Seq<OpEffectView>
    decreases replies.len(),
{
    match step.next {
        Some(op) => if replies.len() == 0 {
            step.effects
        } else {
            step.effects + run(advance(op, replies[0]), replies.drop_first())
        },
        None => step.effects,
    }
}

/// How many replies an operation still waits for, at most.
pub open spec fn steps_left(op: OperationView) -> nat {
    match op {
        OperationView::RegisterConnecting { .. } => 2,
        OperationView::RegisterStoring => 1,
        OperationView::DeregisterConnectingToCheck { .. } => 6,
        OperationView::DeregisterChecking { .. } => 5,
        OperationView::DeregisterConnectingToEnd { .. } => 4,
        OperationView::DeregisterEnding { .. } => 3,
        OperationView::DeregisterConnectingToDelete { .. } => 2,
        OperationView::DeregisterDeleting { .. } => 1,
        OperationView::SubscribeConnecting { .. } => 3,
        OperationView::SubscribeChecking { .. } => 2,
        OperationView::SubscribeSpawning => 1,
        OperationView::PublishConnecting { .. } => 5,
        OperationView::PublishConnectingAgain { .. } => 4,
        OperationView::PublishChecking { .. } => 3,
        OperationView::PublishExtending { .. } => 2,
        OperationView::PublishSending => 1,
    }
}

/// Whether an operation waits for a connection to the store.
pub open spec fn awaits_connection(op: OperationView) -> bool {
    ||| op is RegisterConnecting
    ||| op is DeregisterConnectingToCheck
    ||| op is DeregisterConnectingToEnd
    ||| op is DeregisterConnectingToDelete
    ||| op is SubscribeConnecting
    ||| op is PublishConnecting
    ||| op is PublishConnectingAgain
}

/// Whether an operation waits for the store to carry out a command (other
/// than the publication of the end marker).
pub open spec fn awaits_command(op: OperationView) -> bool {
    ||| op is RegisterStoring
    ||| op is DeregisterChecking
    ||| op is DeregisterDeleting
    ||| op is SubscribeChecking
    ||| op is PublishChecking
    ||| op is PublishExtending
    ||| op is PublishSending
}

/// Every operation ends: each reply leaves fewer replies to wait for, and a
/// step goes on exactly when its last effect is not the outcome.
pub proof fn law_operations_end(op: OperationView, reply: ReplyView)
    ensures
        advance(op, reply).effects.len() > 0,
        advance(op, reply).next matches Some(next) ==> steps_left(next) < steps_left(op),
        (advance(op, reply).next is None) == (advance(op, reply).effects.last() is Finish),
{
}

/// A store that cannot be reached ends the operation with a connection
/// error that carries the store's error; a command the store refuses ends it
/// with an execution error that carries it.
pub proof fn law_store_failures_end_operations(op: OperationView, e: RedisError)
    ensures
        awaits_connection(op) ==> advance(op, ReplyView::Failed(e)) == connection_failure(e),
        awaits_command(op) ==> advance(op, ReplyView::Failed(e)) == execution_failure(e),
        op is DeregisterEnding ==> advance(op, ReplyView::Failed(e)) == end(
            seq![finish(Err(AppStateErrorView::GenericError(end_not_published_text())))],
        ),
{
}

/// Registering a publisher, when the store answers, sets its key to `online`
/// for the expiry time, and succeeds.
pub proof fn law_register_sets_key(id: u128, replies: Seq<ReplyView>)
    requires
        replies.len() == 2,
        forall|i: int| 0 <= i < 2 ==> !(#[trigger] replies[i] is Failed),
    ensures
        run(start_add_publisher(id), replies) == seq![
            OpEffectView::Connect,
            OpEffectView::SetExpiring {
                key: publisher_key(id),
                value: "online"@,
                seconds: EXPIRY_SECONDS,
            },
            finish(Ok(())),
        ],
{
    reveal_with_fuel(run, 3);
    assert(!(replies[0] is Failed));
    assert(!(replies[1] is Failed));
    assert(replies.drop_first().drop_first().len() == 0);
}

/// Removing a known publisher, when the store answers, tells its subscribers
/// to stop (the end marker on its channel) before its key is deleted, and
/// succeeds.
pub proof fn law_remove_ends_then_deletes(id: u128, replies: Seq<ReplyView>)
    requires
        replies.len() == 6,
        forall|i: int| 0 <= i < 6 ==> !(#[trigger] replies[i] is Failed),
        found(replies[1]),
    ensures
        run(start_remove_publisher(id), replies) == seq![
            OpEffectView::Connect,
            OpEffectView::Get { key: publisher_key(id) },
            OpEffectView::Connect,
            OpEffectView::Publish { channel: channel_name(id), payload: end_marker() },
            OpEffectView::Log("Published __END__ for publisher "@ + uuid_text(id)),
            OpEffectView::Connect,
            OpEffectView::Delete { key: publisher_key(id) },
            OpEffectView::Log("Deleted publisher key "@ + publisher_key(id)),
            OpEffectView::Log("Publisher "@ + uuid_text(id) + " successfully deregistered"@),
            finish(Ok(())),
        ],
{
    reveal_with_fuel(run, 7);
    let r = replies;
    assert(!(r[0] is Failed) && !(r[2] is Failed) && !(r[3] is Failed) && !(r[4] is Failed) && !(
    r[5] is Failed));
    assert(!(r[1] is Failed));
    let r1 = r.drop_first();
    let r2 = r1.drop_first();
    let r3 = r2.drop_first();
    let r4 = r3.drop_first();
    let r5 = r4.drop_first();
    let r6 = r5.drop_first();
    assert(r1[0] == r[1] && r2[0] == r[2] && r3[0] == r[3] && r4[0] == r[4] && r5[0] == r[5]);
    assert(r6.len() == 0);
    assert(run(start_remove_publisher(id), replies) =~= seq![
        OpEffectView::Connect,
        OpEffectView::Get { key: publisher_key(id) },
        OpEffectView::Connect,
        OpEffectView::Publish { channel: channel_name(id), payload: end_marker() },
        OpEffectView::Log("Published __END__ for publisher "@ + uuid_text(id)),
        OpEffectView::Connect,
        OpEffectView::Delete { key: publisher_key(id) },
        OpEffectView::Log("Deleted publisher key "@ + publisher_key(id)),
        OpEffectView::Log("Publisher "@ + uuid_text(id) + " successfully deregistered"@),
        finish(Ok(())),
    ]);
}

/// Removing, subscribing to or publishing as a publisher whose key is not in
/// the store is refused, and nothing is published, deleted or started.
pub proof fn law_unknown_publisher_is_refused(
    subscriber_id: u128,
    id: u128,
    token: CancellationToken,
    data: Seq<char>,
    replies: Seq<ReplyView>,
)
    requires
        replies.len() == 3,
        forall|i: int| 0 <= i < 3 ==> !(#[trigger] replies[i] is Failed),
        !found(replies[1]),
        !found(replies[2]),
    ensures
        run(start_remove_publisher(id), replies.take(2)) == seq![
            OpEffectView::Connect,
            OpEffectView::Get { key: publisher_key(id) },
            finish(Err(AppStateErrorView::GenericError(no_publisher_text()))),
        ],
        run(start_add_subscriber(subscriber_id, id, token), replies.take(2)) == seq![
            OpEffectView::Connect,
            OpEffectView::Get { key: publisher_key(id) },
            finish(Err(AppStateErrorView::GenericError(no_publisher_text()))),
        ],
        run(start_publish_message(id, data), replies) == seq![
            OpEffectView::Connect,
            OpEffectView::Connect,
            OpEffectView::Get { key: publisher_key(id) },
            finish(Err(AppStateErrorView::GenericError(no_publisher_text()))),
        ],
{
    reveal_with_fuel(run, 4);
    let r = replies;
    assert(!(r[0] is Failed) && !(r[1] is Failed) && !(r[2] is Failed));
    let t = r.take(2);
    assert(t[0] == r[0] && t[1] == r[1] && t.drop_first()[0] == r[1]);
    assert(t.drop_first().drop_first().len() == 0);
    assert(r.drop_first()[0] == r[1] && r.drop_first().drop_first()[0] == r[2]);
    assert(r.drop_first().drop_first().drop_first().len() == 0);
    assert(run(start_remove_publisher(id), t) =~= seq![
        OpEffectView::Connect,
        OpEffectView::Get { key: publisher_key(id) },
        finish(Err(AppStateErrorView::GenericError(no_publisher_text()))),
    ]);
    assert(run(start_add_subscriber(subscriber_id, id, token), t) =~= seq![
        OpEffectView::Connect,
        OpEffectView::Get { key: publisher_key(id) },
        finish(Err(AppStateErrorView::GenericError(no_publisher_text()))),
    ]);
    assert(run(start_publish_message(id, data), r) =~= seq![
        OpEffectView::Connect,
        OpEffectView::Connect,
        OpEffectView::Get { key: publisher_key(id) },
        finish(Err(AppStateErrorView::GenericError(no_publisher_text()))),
    ]);
}

/// Subscribing to a known publisher, when the store answers, starts the
/// subscriber's task with the token kept for it, and succeeds.
pub proof fn law_subscribe_starts_task(
    subscriber_id: u128,
    publisher_id: u128,
    token: CancellationToken,
    replies: Seq<ReplyView>,
)
    requires
        replies.len() == 3,
        forall|i: int| 0 <= i < 3 ==> !(#[trigger] replies[i] is Failed),
        found(replies[1]),
    ensures
        run(start_add_subscriber(subscriber_id, publisher_id, token), replies) == seq![
            OpEffectView::Connect,
            OpEffectView::Get { key: publisher_key(publisher_id) },
            OpEffectView::Spawn { subscriber_id, publisher_id, token },
            finish(Ok(())),
        ],
{
    reveal_with_fuel(run, 4);
    let r = replies;
    assert(!(r[0] is Failed) && !(r[1] is Failed));
    assert(r.drop_first()[0] == r[1] && r.drop_first().drop_first()[0] == r[2]);
    assert(r.drop_first().drop_first().drop_first().len() == 0);
    assert(run(start_add_subscriber(subscriber_id, publisher_id, token), r) =~= seq![
        OpEffectView::Connect,
        OpEffectView::Get { key: publisher_key(publisher_id) },
        OpEffectView::Spawn { subscriber_id, publisher_id, token },
        finish(Ok(())),
    ]);
}

/// Publishing as a known publisher, when the store answers, refreshes the
/// publisher's key and publishes the data, unchanged, on the publisher's
/// channel, and succeeds.
pub proof fn law_publish_sends_data_on_channel(id: u128, data: Seq<char>, replies: Seq<ReplyView>)
    requires
        replies.len() == 5,
        forall|i: int| 0 <= i < 5 ==> !(#[trigger] replies[i] is Failed),
        found(replies[2]),
    ensures
        run(start_publish_message(id, data), replies) == seq![
            OpEffectView::Connect,
            OpEffectView::Connect,
            OpEffectView::Get { key: publisher_key(id) },
            OpEffectView::Expire { key: publisher_key(id), seconds: EXPIRY_SECONDS },
            OpEffectView::Publish { channel: channel_name(id), payload: data },
            finish(Ok(())),
        ],
{
    reveal_with_fuel(run, 6);
    let r = replies;
    assert(!(r[0] is Failed) && !(r[1] is Failed) && !(r[2] is Failed) && !(r[3] is Failed) && !(
    r[4] is Failed));
    let r1 = r.drop_first();
    let r2 = r1.drop_first();
    let r3 = r2.drop_first();
    let r4 = r3.drop_first();
    let r5 = r4.drop_first();
    assert(r1[0] == r[1] && r2[0] == r[2] && r3[0] == r[3] && r4[0] == r[4]);
    assert(r5.len() == 0);
    assert(run(start_publish_message(id, data), r) =~= seq![
        OpEffectView::Connect,
        OpEffectView::Connect,
        OpEffectView::Get { key: publisher_key(id) },
        OpEffectView::Expire { key: publisher_key(id), seconds: EXPIRY_SECONDS },
        OpEffectView::Publish { channel: channel_name(id), payload: data },
        finish(Ok(())),
    ]);
}

/// Unsubscribing right after subscribing cancels the very token the
/// subscriber's task was started with, which is not the token of any earlier
/// task (of this subscriber or another), and forgets the subscriber;
/// unsubscribing once more cancels nothing.
pub proof fn law_unsubscribe_after_subscribe(
    t0: Map<u128, CancellationToken>,
    t1: Map<u128, CancellationToken>,
    t2: Map<u128, CancellationToken>,
    t3: Map<u128, CancellationToken>,
    id: u128,
    publisher_id: u128,
)
    requires
        t1.contains_key(id),
        t1 == t0.insert(id, t1[id]),
        forall|k: u128| #[trigger] t0.contains_key(k) ==> t0[k] != t1[id],
        t2 == t1.remove(id),
        t3 == t2.remove(id),
    ensures
        forall|k: u128|
            #[trigger] t0.contains_key(k) ==> unsubscribed(id, token_of(t1, id)).effects[0]
                != (OpEffectView::Cancel { token: t0[k] }),
        start_add_subscriber(id, publisher_id, t1[id]).next == Some(
            OperationView::SubscribeConnecting { subscriber_id: id, publisher_id, token: t1[id] },
        ),
        unsubscribed(id, token_of(t1, id)).effects[0] == (OpEffectView::Cancel { token: t1[id] }),
        t2 == t0.remove(id),
        unsubscribed(id, token_of(t2, id)) == unsubscribed(id, None),
        forall|i: int|
            0 <= i < unsubscribed(id, token_of(t2, id)).effects.len() ==> !(
            #[trigger] unsubscribed(id, token_of(t2, id)).effects[i] is Cancel),
        t3 == t2,
{
    assert(t2 =~= t0.remove(id));
    assert(t3 =~= t2);
}

} // verus!
