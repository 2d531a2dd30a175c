//! The in-process registry of publishers: each one is known by its name and
//! owns a broadcast channel on which its messages go out to its subscribers.

use tokio::sync::broadcast::error::SendError;
use tokio::sync::broadcast::{Receiver, Sender};
use vstd::hash_map::StringHashMap;
use vstd::prelude::*;

verus! {

#[verifier::external_type_specification]
#[verifier::external_body]
#[verifier::reject_recursive_types(T)]
pub struct ExBroadcastSender<T>(Sender<T>);

#[verifier::external_type_specification]
#[verifier::external_body]
#[verifier::reject_recursive_types(T)]
pub struct ExBroadcastReceiver<T>(Receiver<T>);

#[verifier::external_type_specification]
#[verifier::external_body]
#[verifier::reject_recursive_types(T)]
pub struct ExBroadcastSendError<T>(SendError<T>);

/// The capacity requested for a publisher's channel (tokio rounds its buffer
/// up to the next power of two, 128).
pub const CHANNEL_CAPACITY: usize = 100;

/// The capacity a broadcast channel was requested with (tokio sizes its
/// buffer to the next power of two at least this large).
pub uninterp spec fn channel_capacity(sender: Sender<String>) -> usize;

/// Opens a broadcast channel, `tokio::sync::broadcast::channel`.
///
/// Trusted: the function panics when `capacity` is 0 or above `usize::MAX / 2`,
/// which `requires` leaves out. The sending end is that of a channel requested
/// with `capacity`, and it is a new channel: it differs from every sender that
/// `held` keeps (the channel is a new `Arc`, which no live sender shares).
/// `held` is only read for the statement. Nothing else is stated of the ends.
#[verifier::external_body]
fn open_channel(held: &StringHashMap<Sender<String>>, capacity: usize) -> (ends: (
    Sender<String>,
    Receiver<String>,
))
    requires
        0 < capacity <= usize::MAX / 2,
    ensures
        channel_capacity(ends.0) == capacity,
        forall|k: Seq<char>| #[trigger] held@.contains_key(k) ==> held@[k] != ends.0,
{
    tokio::sync::broadcast::channel(capacity)
}

/// Sends a publication on its channel, `broadcast::Sender::send`.
///
/// Trusted: on success it returns how many receivers were subscribed, which
/// is at least one (it fails when there is none); how many there are depends
/// on what other tasks hold, so nothing more is stated.
#[verifier::external_body]
fn send_publication(publication: Publication) -> (sent: Result<usize, SendError<String>>)
    ensures
        sent matches Ok(n) ==> n >= 1,
{
    publication.sender.send(publication.message)
}

/// Another handle on a channel, `Clone` for `broadcast::Sender`.
///
/// Trusted: the clone holds the same shared channel as the original (it
/// clones the `Arc` inside), which the contract states as equality.
#[verifier::external_body]
fn clone_sender(sender: &Sender<String>) -> (copy: Sender<String>)
    ensures
        copy == *sender,
{
    sender.clone()
}

/// The text of a failed send, `Display` for `broadcast::error::SendError`.
///
/// Trusted: that `Display` writes `channel closed`, whatever the message.
#[verifier::external_body]
fn send_error_text(error: &SendError<String>) -> (text: String)
    ensures
        text@ == "channel closed"@,
{
    error.to_string()
}

/// What a registry refuses a second registration of `id` with.
pub open spec fn already_exists_text(id: Seq<char>) -> Seq<char> {
    "Publisher '"@ + id + "' already exists"@
}

/// What a registry answers about an `id` it does not know.
pub open spec fn missing_text(id: Seq<char>) -> Seq<char> {
    "Publisher '"@ + id + "' does not exist"@
}

/// The text of a send that found no receiver.
pub open spec fn failed_send_text() -> Seq<char> {
    "Failed to send message: "@ + "channel closed"@
}

/// Registering `id` in `before` gives `after` and `outcome`: a new channel
/// under `id`, or the refusal of a name that is taken.
pub open spec fn registered(
    before: Map<Seq<char>, Sender<String>>,
    id: Seq<char>,
    after: Map<Seq<char>, Sender<String>>,
    outcome: Result<(), Seq<char>>,
) -> bool {
    if before.contains_key(id) {
        outcome == Err::<(), Seq<char>>(already_exists_text(id)) && after == before
    } else {
        &&& outcome == Ok::<(), Seq<char>>(())
        &&& after.contains_key(id)
        &&& after == before.insert(id, after[id])
        &&& channel_capacity(after[id]) == CHANNEL_CAPACITY
        &&& forall|k: Seq<char>| #[trigger] before.contains_key(k) ==> before[k] != after[id]
    }
}

/// Removing `id` from `before` gives `after` and `outcome`.
pub open spec fn deregistered(
    before: Map<Seq<char>, Sender<String>>,
    id: Seq<char>,
    after: Map<Seq<char>, Sender<String>>,
    outcome: Result<(), Seq<char>>,
) -> bool {
    if before.contains_key(id) {
        outcome == Ok::<(), Seq<char>>(()) && after == before.remove(id)
    } else {
        outcome == Err::<(), Seq<char>>(missing_text(id)) && after == before
    }
}

/// The channel of `id` in `m`, or the text of its absence.
pub open spec fn lookup(m: Map<Seq<char>, Sender<String>>, id: Seq<char>) -> Result<
    Sender<String>,
    Seq<char>,
> {
    if m.contains_key(id) {
        Ok(m[id])
    } else {
        Err(missing_text(id))
    }
}

/// What publishing `message` on `id` in `m` gives: the channel of `id` with
/// `message` unchanged, or the text of the absence of `id`.
pub open spec fn publication(m: Map<Seq<char>, Sender<String>>, id: Seq<char>, message: Seq<char>) -> Result<
    (Sender<String>, Seq<char>),
    Seq<char>,
> {
    if m.contains_key(id) {
        Ok((m[id], message))
    } else {
        Err(missing_text(id))
    }
}

/// What publishing on `id` in `m` may answer: the absence of `id`; or the
/// number of subscribers reached, at least one; or that none was there.
pub open spec fn published(
    m: Map<Seq<char>, Sender<String>>,
    id: Seq<char>,
    outcome: Result<usize, Seq<char>>,
) -> bool {
    if m.contains_key(id) {
        match outcome {
            Ok(n) => n >= 1,
            Err(text) => text == failed_send_text(),
        }
    } else {
        outcome == Err::<usize, Seq<char>>(missing_text(id))
    }
}

/// The view of the result of `prepare_publication`.
pub open spec fn publication_of(r: Result<Publication, String>) -> Result<
    (Sender<String>, Seq<char>),
    Seq<char>,
> {
    match r {
        Ok(p) => Ok((p.sender, p.message@)),
        Err(e) => Err(e@),
    }
}

/// A message to send on a publisher's channel.
pub struct Publication {
    pub sender: Sender<String>,
    pub message: String,
}

/// What a send on a channel answers, as the registry reports it: the number
/// of receivers reached, or the text of a send that found none.
pub fn send_outcome(sent: Result<usize, SendError<String>>) -> (outcome: Result<usize, String>)
    ensures
        match sent {
            Ok(n) => outcome == Ok::<usize, String>(n),
            Err(_) => outcome matches Err(text) && text@ == failed_send_text(),
        },
{
    match sent {
        Ok(n) => Ok(n),
        Err(error) => {
            let mut text = String::from_str("Failed to send message: ");
            let reason = send_error_text(&error);
            text.append(reason.as_str());
            Err(text)
        },
    }
}

/// The texts of a sequence of strings.
pub open spec fn texts(v: Seq<String>) -> Seq<Seq<char>> {
    v.map_values(|s: String| s@)
}

/// The view of a result whose error is a string.
pub open spec fn outcome_of<T>(r: Result<T, String>) -> Result<T, Seq<char>> {
    match r {
        Ok(v) => Ok(v),
        Err(e) => Err(e@),
    }
}

/// The publishers of one process, each with the sending end of its channel.
pub struct AppState {
    publishers: StringHashMap<Sender<String>>,
    /// The names of the publishers, each once, in the order they came.
    order: Vec<String>,
}

impl View for AppState {
    type V = Map<Seq<char>, Sender<String>>;

    closed spec fn view(&self) -> Map<Seq<char>, Sender<String>> {
        self.publishers@
    }
}

impl AppState {
    /// The registry is consistent: `order` names each publisher once.
    pub closed spec fn wf(&self) -> bool {
        &&& forall|i: int|
            0 <= i < self.order@.len() ==> self.publishers@.contains_key(
                #[trigger] self.order@[i]@,
            )
        &&& forall|k: Seq<char>|
            #![trigger self.publishers@.contains_key(k)]
            self.publishers@.contains_key(k) ==> exists|i: int|
                0 <= i < self.order@.len() && #[trigger] self.order@[i]@ == k
        &&& forall|i: int, j: int|
            0 <= i < j < self.order@.len() ==> #[trigger] self.order@[i]@ != #[trigger] self.order@[j]@
    }

    /// An empty registry.
    pub fn new() -> (state: Self)
        ensures
            state.wf(),
            state@ == Map::<Seq<char>, Sender<String>>::empty(),
    {
        AppState { publishers: StringHashMap::new(), order: Vec::new() }
    }

    fn position(&self, id: &str) -> (index: Option<usize>)
        requires
            self.wf(),
        ensures
            match index {
                Some(i) => i < self.order@.len() && self.order@[i as int]@ == id@,
                None => !self@.contains_key(id@),
            },
    {
        let wanted = String::from_str(id);
        let mut i: usize = 0;
        while i < self.order.len()
            invariant
                self.wf(),
                wanted@ == id@,
                i <= self.order@.len(),
                forall|j: int| 0 <= j < i ==> self.order@[j]@ != id@,
            decreases self.order@.len() - i,
        {
            if self.order[i] == wanted {
                return Some(i);
            }
            i = i + 1;
        }
        None
    }

    /// Registers a publisher under `id` with a new channel; refuses a name
    /// that is taken.
    pub fn add_publisher(&mut self, id: String) -> (outcome: Result<(), String>)
        requires
            old(self).wf(),
        ensures
            final(self).wf(),
            registered(old(self)@, id@, final(self)@, outcome_of(outcome)),
    {
        if self.publishers.contains_key(id.as_str()) {
            let mut text = String::from_str("Publisher '");
            text.append(id.as_str());
            text.append("' already exists");
            return Err(text);
        }
        let ghost before = self@;
        let (sender, _receiver) = open_channel(&self.publishers, CHANNEL_CAPACITY);
        let name = id.clone();
        self.publishers.insert(id, sender);
        self.order.push(name);
        proof {
            let n = self.order@.len() - 1;
            assert(self.order@[n]@ == id@);
            assert forall|k: Seq<char>| #[trigger] self.publishers@.contains_key(k) implies exists|
                i: int,
            | 0 <= i < self.order@.len() && #[trigger] self.order@[i]@ == k by {
                if k != id@ {
                    assert(before.contains_key(k));
                    let i = choose|i: int|
                        0 <= i < old(self).order@.len() && #[trigger] old(self).order@[i]@ == k;
                    assert(self.order@[i] == old(self).order@[i]);
                }
            }
            assert(self@ == before.insert(id@, self@[id@]));
        }
        Ok(())
    }

    /// Removes the publisher `id`; refuses a name it does not know.
    pub fn remove_publisher(&mut self, id: &str) -> (outcome: Result<(), String>)
        requires
            old(self).wf(),
        ensures
            final(self).wf(),
            deregistered(old(self)@, id@, final(self)@, outcome_of(outcome)),
    {
        match self.position(id) {
            None => {
                let mut text = String::from_str("Publisher '");
                text.append(id);
                text.append("' does not exist");
                Err(text)
            },
            Some(index) => {
                let ghost old_order = self.order@;
                self.publishers.remove(id);
                self.order.remove(index);
                proof {
                    assert forall|i: int| 0 <= i < self.order@.len() implies self.publishers@.contains_key(
                        #[trigger] self.order@[i]@,
                    ) by {
                        if i < index {
                            assert(self.order@[i] == old_order[i]);
                            assert(old_order[i]@ != old_order[index as int]@);
                        } else {
                            assert(self.order@[i] == old_order[i + 1]);
                            assert(old_order[i + 1]@ != old_order[index as int]@);
                        }
                    }
                    assert forall|k: Seq<char>| #[trigger] self.publishers@.contains_key(k) implies exists|
                        i: int,
                    | 0 <= i < self.order@.len() && #[trigger] self.order@[i]@ == k by {
                        assert(old(self).publishers@.contains_key(k));
                        let i = choose|i: int|
                            0 <= i < old_order.len() && #[trigger] old_order[i]@ == k;
                        if i < index {
                            assert(self.order@[i] == old_order[i]);
                        } else {
                            assert(i != index);
                            assert(self.order@[i - 1] == old_order[i]);
                        }
                    }
                    assert forall|i: int, j: int|
                        0 <= i < j < self.order@.len() implies #[trigger] self.order@[i]@
                        != #[trigger] self.order@[j]@ by {
                        let oi = if i < index { i } else { i + 1 };
                        let oj = if j < index { j } else { j + 1 };
                        assert(self.order@[i] == old_order[oi]);
                        assert(self.order@[j] == old_order[oj]);
                        assert(old_order[oi]@ != old_order[oj]@);
                    }
                }
                Ok(())
            },
        }
    }

    /// The sending end of the channel of publisher `id`.
    pub fn get_publisher(&self, id: &str) -> (found: Result<Sender<String>, String>)
        requires
            self.wf(),
        ensures
            outcome_of(found) == lookup(self@, id@),
    {
        match self.publishers.get(id) {
            Some(sender) => Ok(clone_sender(sender)),
            None => {
                let mut text = String::from_str("Publisher '");
                text.append(id);
                text.append("' does not exist");
                Err(text)
            },
        }
    }

    /// What sending `message` to the subscribers of publisher `publisher_id`
    /// hands to the channel: its channel and the message.
    pub fn prepare_publication(&self, publisher_id: &str, message: String) -> (outcome: Result<
        Publication,
        String,
    >)
        requires
            self.wf(),
        ensures
            publication_of(outcome) == publication(self@, publisher_id@, message@),
    {
        match self.publishers.get(publisher_id) {
            Some(sender) => Ok(Publication { sender: clone_sender(sender), message }),
            None => {
                let mut text = String::from_str("Publisher '");
                text.append(publisher_id);
                text.append("' does not exist");
                Err(text)
            },
        }
    }

    /// Sends `message` to the subscribers of publisher `publisher_id`, as
    /// `prepare_publication` gives it, and says how many there were.
    pub fn publish_message(&self, publisher_id: &str, message: String) -> (outcome: Result<
        usize,
        String,
    >)
        requires
            self.wf(),
        ensures
            published(self@, publisher_id@, outcome_of(outcome)),
    {
        match self.prepare_publication(publisher_id, message) {
            Ok(publication) => send_outcome(send_publication(publication)),
            Err(text) => Err(text),
        }
    }

    /// The names of all publishers, each once, in no promised order.
    pub fn list_publishers(&self) -> (names: Vec<String>)
        requires
            self.wf(),
        ensures
            texts(names@).no_duplicates(),
            texts(names@).to_set() == self@.dom(),
    {
        let mut names: Vec<String> = Vec::new();
        let mut i: usize = 0;
        while i < self.order.len()
            invariant
                i <= self.order@.len(),
                names@.len() == i,
                forall|j: int| 0 <= j < i ==> #[trigger] names@[j]@ == self.order@[j]@,
            decreases self.order@.len() - i,
        {
            names.push(self.order[i].clone());
            i = i + 1;
        }
        proof {
            assert(texts(names@).len() == self.order@.len());
            assert forall|a: int, b: int|
                0 <= a < texts(names@).len() && 0 <= b < texts(names@).len() && a != b implies texts(
                names@,
            )[a] != texts(names@)[b] by {
                assert(texts(names@)[a] == self.order@[a]@);
                assert(texts(names@)[b] == self.order@[b]@);
                if a < b {
                    assert(self.order@[a]@ != self.order@[b]@);
                } else {
                    assert(self.order@[b]@ != self.order@[a]@);
                }
            }
            assert forall|k: Seq<char>| texts(names@).to_set().contains(k) == self@.dom().contains(
                k,
            ) by {
                if self@.dom().contains(k) {
                    assert(self.publishers@.contains_key(k));
                    let i = choose|i: int|
                        0 <= i < self.order@.len() && #[trigger] self.order@[i]@ == k;
                    assert(texts(names@)[i] == k);
                }
                if texts(names@).contains(k) {
                    let i = choose|i: int|
                        0 <= i < texts(names@).len() && texts(names@)[i] == k;
                    assert(self.order@[i]@ == k);
                }
            }
            assert(texts(names@).to_set() =~= self@.dom());
        }
        names
    }
}

/// A publisher that was registered is found: looking it up gives its
/// channel, a new one that no other publisher shares, requested with the
/// channel capacity; and a message published as it goes, unchanged, on that
/// channel.
pub proof fn law_registered_publisher_is_found(
    before: Map<Seq<char>, Sender<String>>,
    id: Seq<char>,
    after: Map<Seq<char>, Sender<String>>,
    message: Seq<char>,
)
    requires
        registered(before, id, after, Ok(())),
    ensures
        lookup(after, id) == Ok::<Sender<String>, Seq<char>>(after[id]),
        channel_capacity(after[id]) == CHANNEL_CAPACITY,
        forall|k: Seq<char>| #[trigger] after.contains_key(k) && k != id ==> after[k] != after[id],
        publication(after, id, message) == Ok::<(Sender<String>, Seq<char>), Seq<char>>(
            (after[id], message),
        ),
{
}

/// A name is registered at most once: registering it again is refused with
/// the text that says so, and nothing changes.
pub proof fn law_names_are_unique(
    m0: Map<Seq<char>, Sender<String>>,
    id: Seq<char>,
    m1: Map<Seq<char>, Sender<String>>,
    m2: Map<Seq<char>, Sender<String>>,
    outcome: Result<(), Seq<char>>,
)
    requires
        registered(m0, id, m1, Ok(())),
        registered(m1, id, m2, outcome),
    ensures
        outcome == Err::<(), Seq<char>>(already_exists_text(id)),
        m2 == m1,
{
}

/// Removing a publisher just registered succeeds and gives back the registry
/// as it was before.
pub proof fn law_remove_undoes_register(
    m0: Map<Seq<char>, Sender<String>>,
    id: Seq<char>,
    m1: Map<Seq<char>, Sender<String>>,
    m2: Map<Seq<char>, Sender<String>>,
    outcome: Result<(), Seq<char>>,
)
    requires
        registered(m0, id, m1, Ok(())),
        deregistered(m1, id, m2, outcome),
    ensures
        outcome == Ok::<(), Seq<char>>(()),
        m2 == m0,
{
    assert(m2 =~= m0);
}

/// After a removal, whether it succeeded or not, the name is unknown: a
/// lookup and a publication on it both answer that it does not exist.
pub proof fn law_removed_publisher_is_gone(
    m0: Map<Seq<char>, Sender<String>>,
    id: Seq<char>,
    m1: Map<Seq<char>, Sender<String>>,
    outcome: Result<(), Seq<char>>,
    message: Seq<char>,
)
    requires
        deregistered(m0, id, m1, outcome),
    ensures
        lookup(m1, id) == Err::<Sender<String>, Seq<char>>(missing_text(id)),
        publication(m1, id, message) == Err::<(Sender<String>, Seq<char>), Seq<char>>(
            missing_text(id),
        ),
{
}

/// Registering or removing one name leaves every other publisher as it was.
pub proof fn law_other_publishers_untouched(
    m0: Map<Seq<char>, Sender<String>>,
    id: Seq<char>,
    m1: Map<Seq<char>, Sender<String>>,
    outcome: Result<(), Seq<char>>,
    other: Seq<char>,
)
    requires
        registered(m0, id, m1, outcome) || deregistered(m0, id, m1, outcome),
        other != id,
    ensures
        lookup(m1, other) == lookup(m0, other),
{
}

} // verus!
