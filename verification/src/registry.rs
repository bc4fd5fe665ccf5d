//! The calls of a session that await their responses, and what the task
//! that owns the session's socket does with each message handed to it.

use vstd::prelude::*;
use std::collections::HashMap;
use crate::json::JsonValue;
use crate::status::Status;
use crate::uuid::{lemma_uuid_view_injective, Uuid};

verus! {

broadcast use vstd::std_specs::hash::group_hash_axioms;

/// A message handed to the task that owns a session's socket: a frame to
/// send, or a change to the calls that await their responses.
pub enum ChannelMessage<M, T> {
    /// A frame to write to the socket.
    SendMessage(M),
    /// A call awaits its response, to be handed to `tx`.
    QueueResponseListener { uuid: Uuid, tx: T },
    /// A call no longer awaits its response.
    RemoveResponseListener { uuid: Uuid },
    /// The response to a call has arrived.
    TriggerResponse { uuid: Uuid, status: Status<JsonValue> },
}

/// What the task does for a message.
pub enum ChannelAction<M, T> {
    /// Write the frame to the socket.
    Send(M),
    /// Hand the status to the listener of the call.
    Deliver(T, Status<JsonValue>),
    /// Report a response for which no call awaits.
    UnknownResponse(Uuid),
    /// Nothing more.
    Nothing,
}

/// The calls that await their responses, each with the listener that
/// receives its response, by identifier.
pub struct ResponseRegistry<T> {
    outstanding: HashMap<u128, T>,
}

impl<T> View for ResponseRegistry<T> {
    type V = Map<u128, T>;

    closed spec fn view(&self) -> Map<u128, T> {
        self.outstanding@
    }
}

/// The calls awaiting their responses after a message, and what is done for it.
pub open spec fn registry_step<M, T>(calls: Map<u128, T>, msg: ChannelMessage<M, T>) -> (
    Map<u128, T>,
    ChannelAction<M, T>,
) {
    match msg {
        ChannelMessage::SendMessage(m) => (calls, ChannelAction::Send(m)),
        ChannelMessage::QueueResponseListener { uuid, tx } => (
            calls.insert(uuid@, tx),
            ChannelAction::Nothing,
        ),
        ChannelMessage::RemoveResponseListener { uuid } => (
            calls.remove(uuid@),
            ChannelAction::Nothing,
        ),
        ChannelMessage::TriggerResponse { uuid, status } => if calls.contains_key(uuid@) {
            (calls.remove(uuid@), ChannelAction::Deliver(calls[uuid@], status))
        } else {
            (calls, ChannelAction::UnknownResponse(uuid))
        },
    }
}

impl<T> ResponseRegistry<T> {
    /// No call awaits a response.
    pub fn new() -> (r: ResponseRegistry<T>)
        ensures
            r@ == Map::<u128, T>::empty(),
    {
        ResponseRegistry { outstanding: HashMap::new() }
    }

    /// Takes in a message handed to the task and says what to do for it: a
    /// frame is sent; a listener is recorded or forgotten; a response is
    /// handed to the listener of its call, which is then forgotten, or
    /// reported where no call awaits it.
    pub fn handle<M>(&mut self, msg: ChannelMessage<M, T>) -> (a: ChannelAction<M, T>)
        ensures
            (final(self)@, a) == registry_step(old(self)@, msg),
    {
        match msg {
            ChannelMessage::SendMessage(m) => ChannelAction::Send(m),
            ChannelMessage::QueueResponseListener { uuid, tx } => {
                let key: u128 = uuid.value();
                self.outstanding.insert(key, tx);
                ChannelAction::Nothing
            },
            ChannelMessage::RemoveResponseListener { uuid } => {
                let key: u128 = uuid.value();
                self.outstanding.remove(&key);
                ChannelAction::Nothing
            },
            ChannelMessage::TriggerResponse { uuid, status } => {
                let key: u128 = uuid.value();
                match self.outstanding.remove(&key) {
                    Some(tx) => ChannelAction::Deliver(tx, status),
                    None => ChannelAction::UnknownResponse(uuid),
                }
            },
        }
    }
}

/// A listener is answered at most once: after a response has been handed
/// to it, another response with the same identifier finds no call.
pub proof fn lemma_answered_once<M, T>(
    calls: Map<u128, T>,
    uuid: Uuid,
    first: Status<JsonValue>,
    second: Status<JsonValue>,
)
    ensures
        ({
            let (after_first, _) = registry_step(
                calls,
                ChannelMessage::<M, T>::TriggerResponse { uuid, status: first },
            );
            let (after_second, a) = registry_step(
                after_first,
                ChannelMessage::<M, T>::TriggerResponse { uuid, status: second },
            );
            &&& a == ChannelAction::<M, T>::UnknownResponse(uuid)
            &&& after_second == after_first
        }),
{
}

/// A removed listener is never answered: after a call's listener is
/// removed, a response with its identifier finds no call.
pub proof fn lemma_removed_not_answered<M, T>(
    calls: Map<u128, T>,
    uuid: Uuid,
    status: Status<JsonValue>,
)
    ensures
        ({
            let (after_remove, _) = registry_step(
                calls,
                ChannelMessage::<M, T>::RemoveResponseListener { uuid },
            );
            let (_, a) = registry_step(
                after_remove,
                ChannelMessage::<M, T>::TriggerResponse { uuid, status },
            );
            a == ChannelAction::<M, T>::UnknownResponse(uuid)
        }),
{
}

/// Sending a frame leaves the calls that await their responses as they were.
pub proof fn lemma_send_keeps_calls<M, T>(calls: Map<u128, T>, frame: M)
    ensures
        registry_step(calls, ChannelMessage::<M, T>::SendMessage(frame)).0 == calls,
{
}

} // verus!

verus! {

/// The calls awaiting their responses after a sequence of messages, and
/// what is done for each message in turn.
pub open spec fn registry_run<M, T>(calls: Map<u128, T>, msgs: Seq<ChannelMessage<M, T>>) -> (
    Map<u128, T>,
    Seq<ChannelAction<M, T>>,
)
    decreases msgs.len(),
{
    if msgs.len() == 0 {
        (calls, Seq::empty())
    } else {
        let (before, actions) = registry_run(calls, msgs.drop_last());
        let (after, a) = registry_step(before, msgs.last());
        (after, actions.push(a))
    }
}

proof fn lemma_run_append<M, T>(
    calls: Map<u128, T>,
    msgs: Seq<ChannelMessage<M, T>>,
    m: ChannelMessage<M, T>,
)
    ensures
        registry_run(calls, msgs.push(m)).0 == registry_step(registry_run(calls, msgs).0, m).0,
        registry_run(calls, msgs.push(m)).1 == registry_run(calls, msgs).1.push(
            registry_step(registry_run(calls, msgs).0, m).1,
        ),
{
    assert(msgs.push(m).drop_last() =~= msgs);
}

proof fn lemma_run_concat<M, T>(
    calls: Map<u128, T>,
    a: Seq<ChannelMessage<M, T>>,
    b: Seq<ChannelMessage<M, T>>,
)
    ensures
        registry_run(calls, a + b).0 == registry_run(registry_run(calls, a).0, b).0,
        registry_run(calls, a + b).1 == registry_run(calls, a).1 + registry_run(
            registry_run(calls, a).0,
            b,
        ).1,
    decreases b.len(),
{
    if b.len() == 0 {
        assert(a + b =~= a);
        assert(registry_run(calls, a).1 + Seq::<ChannelAction<M, T>>::empty() =~= registry_run(
            calls,
            a,
        ).1);
    } else {
        let b0 = b.drop_last();
        let m = b.last();
        assert(a + b =~= (a + b0).push(m));
        assert(b =~= b0.push(m));
        lemma_run_concat(calls, a, b0);
        lemma_run_append(calls, a + b0, m);
        lemma_run_append(registry_run(calls, a).0, b0, m);
        let x = registry_run(calls, a).1;
        let y = registry_run(registry_run(calls, a).0, b0).1;
        let z = registry_step(registry_run(registry_run(calls, a).0, b0).0, m).1;
        assert((x + y).push(z) =~= x + y.push(z));
    }
}

proof fn lemma_run_len<M, T>(calls: Map<u128, T>, msgs: Seq<ChannelMessage<M, T>>)
    ensures
        registry_run(calls, msgs).1.len() == msgs.len(),
    decreases msgs.len(),
{
    if msgs.len() > 0 {
        lemma_run_len(calls, msgs.drop_last());
    }
}

/// The calls after the first `i + 1` messages of a run are one step on from
/// those after the first `i`, and the action for message `i` is that step's.
proof fn lemma_run_prefix<M, T>(calls: Map<u128, T>, msgs: Seq<ChannelMessage<M, T>>, i: int)
    requires
        0 <= i < msgs.len(),
    ensures
        registry_run(calls, msgs.take(i + 1)).0 == registry_step(
            registry_run(calls, msgs.take(i)).0,
            msgs[i],
        ).0,
        registry_run(calls, msgs).1[i] == registry_step(
            registry_run(calls, msgs.take(i)).0,
            msgs[i],
        ).1,
{
    let a = msgs.take(i + 1);
    let b = msgs.skip(i + 1);
    assert(msgs =~= a + b);
    lemma_run_concat(calls, a, b);
    lemma_run_len(calls, a);
    assert(msgs.take(i).push(msgs[i]) =~= a);
    lemma_run_append(calls, msgs.take(i), msgs[i]);
    lemma_run_len(calls, msgs.take(i));
    assert(registry_run(calls, msgs).1[i] == registry_run(calls, a).1[i]);
}

/// Over any run of messages, what is done for each message is what one
/// step does from the calls that await their responses at that point of
/// the run: a response is handed to a listener only while its call awaits
/// it, and only to that call's listener; a response for which no call
/// awaits is reported and changes nothing.
pub proof fn lemma_run_answers_pending<M, T>(
    calls: Map<u128, T>,
    msgs: Seq<ChannelMessage<M, T>>,
    i: int,
)
    requires
        0 <= i < msgs.len(),
    ensures
        registry_run(calls, msgs).1.len() == msgs.len(),
        ({
            let before = registry_run(calls, msgs.take(i)).0;
            let after = registry_run(calls, msgs.take(i + 1)).0;
            &&& (after, registry_run(calls, msgs).1[i]) == registry_step(before, msgs[i])
            &&& registry_run(calls, msgs).1[i] matches ChannelAction::Deliver(tx, s) ==> (
            msgs[i] matches ChannelMessage::TriggerResponse { uuid, status } && status == s
                && before.contains_key(uuid@) && before[uuid@] == tx)
            &&& msgs[i] matches ChannelMessage::TriggerResponse { uuid, .. } ==> (
            !before.contains_key(uuid@) ==> registry_run(calls, msgs).1[i]
                == ChannelAction::<M, T>::UnknownResponse(uuid) && after == before)
        }),
{
    lemma_run_len(calls, msgs);
    lemma_run_prefix(calls, msgs, i);
}

proof fn lemma_absent_until<M, T>(
    calls: Map<u128, T>,
    msgs: Seq<ChannelMessage<M, T>>,
    i: int,
    j: int,
    key: u128,
)
    requires
        0 <= i <= j <= msgs.len(),
        !registry_run(calls, msgs.take(i)).0.contains_key(key),
        forall|k: int|
            i <= k < j ==> !(#[trigger] msgs[k] matches ChannelMessage::QueueResponseListener {
                uuid: u,
                ..
            } && u@ == key),
    ensures
        !registry_run(calls, msgs.take(j)).0.contains_key(key),
    decreases j - i,
{
    if i < j {
        lemma_run_prefix(calls, msgs, i);
        assert(!(msgs[i] matches ChannelMessage::QueueResponseListener { uuid: u, .. } && u@
            == key));
        lemma_absent_until(calls, msgs, i + 1, j, key);
    }
}

/// Over any run of messages, a call is answered at most once: of two
/// responses with one identifier, with no listener queued for that
/// identifier between them, the second finds no call.
pub proof fn lemma_run_answers_once<M, T>(
    calls: Map<u128, T>,
    msgs: Seq<ChannelMessage<M, T>>,
    i: int,
    j: int,
    uuid: Uuid,
)
    requires
        0 <= i < j < msgs.len(),
        msgs[i] matches ChannelMessage::TriggerResponse { uuid: u, .. } && u == uuid,
        msgs[j] matches ChannelMessage::TriggerResponse { uuid: u, .. } && u == uuid,
        forall|k: int|
            i < k < j ==> !(#[trigger] msgs[k] matches ChannelMessage::QueueResponseListener {
                uuid: u,
                ..
            } && u == uuid),
    ensures
        registry_run(calls, msgs).1[j] == ChannelAction::<M, T>::UnknownResponse(uuid),
{
    lemma_run_prefix(calls, msgs, i);
    assert forall|k: int|
        i + 1 <= k < j implies !(#[trigger] msgs[k] matches ChannelMessage::QueueResponseListener {
        uuid: u,
        ..
    } && u@ == uuid@) by {
        if let ChannelMessage::QueueResponseListener { uuid: u, .. } = msgs[k] {
            lemma_uuid_view_injective(u, uuid);
        }
    }
    lemma_absent_until(calls, msgs, i + 1, j, uuid@);
    lemma_run_prefix(calls, msgs, j);
}

/// Whether a message queues, removes or answers the call with identifier
/// `key`.
pub open spec fn mentions<M, T>(m: ChannelMessage<M, T>, key: u128) -> bool {
    match m {
        ChannelMessage::SendMessage(_) => false,
        ChannelMessage::QueueResponseListener { uuid, .. } => uuid@ == key,
        ChannelMessage::RemoveResponseListener { uuid } => uuid@ == key,
        ChannelMessage::TriggerResponse { uuid, .. } => uuid@ == key,
    }
}

/// Messages that do not mention a call leave it as it was: over a run in
/// which no message queues, removes or answers the call `key`, the call
/// awaits its response afterwards exactly where it did before, with the
/// same listener.
pub proof fn lemma_run_keeps_unmentioned<M, T>(
    calls: Map<u128, T>,
    msgs: Seq<ChannelMessage<M, T>>,
    key: u128,
)
    requires
        forall|j: int| 0 <= j < msgs.len() ==> !mentions(#[trigger] msgs[j], key),
    ensures
        registry_run(calls, msgs).0.contains_key(key) == calls.contains_key(key),
        calls.contains_key(key) ==> registry_run(calls, msgs).0[key] == calls[key],
    decreases msgs.len(),
{
    if msgs.len() > 0 {
        let m = msgs.last();
        assert(!mentions(msgs[msgs.len() - 1], key));
        assert forall|j: int| 0 <= j < msgs.drop_last().len() implies !mentions(
            #[trigger] msgs.drop_last()[j],
            key,
        ) by {
            assert(!mentions(msgs[j], key));
        }
        lemma_run_keeps_unmentioned(calls, msgs.drop_last(), key);
    }
}

/// The calls that await their responses after any run of messages: the
/// call `key` awaits its response exactly where the last message that
/// mentions it queued its listener, and then with that listener; where
/// that message removed or answered it, the call awaits nothing.
pub proof fn lemma_run_last_mention<M, T>(
    calls: Map<u128, T>,
    msgs: Seq<ChannelMessage<M, T>>,
    key: u128,
    i: int,
)
    requires
        0 <= i < msgs.len(),
        mentions(msgs[i], key),
        forall|j: int| i < j < msgs.len() ==> !mentions(#[trigger] msgs[j], key),
    ensures
        msgs[i] matches ChannelMessage::QueueResponseListener { tx, .. } ==> registry_run(
            calls,
            msgs,
        ).0.contains_key(key) && registry_run(calls, msgs).0[key] == tx,
        !(msgs[i] is QueueResponseListener) ==> !registry_run(calls, msgs).0.contains_key(key),
{
    let a = msgs.take(i + 1);
    let b = msgs.skip(i + 1);
    assert(msgs =~= a + b);
    lemma_run_concat(calls, a, b);
    lemma_run_prefix(calls, msgs, i);
    assert forall|j: int| 0 <= j < b.len() implies !mentions(#[trigger] b[j], key) by {
        assert(b[j] == msgs[i + 1 + j]);
    }
    lemma_run_keeps_unmentioned(registry_run(calls, a).0, b, key);
}

/// Call and response: a call's listener, once queued, receives the
/// response that comes for the call's identifier, whatever other messages
/// come in between, as long as none of them queues, removes or answers
/// that call; the call then awaits nothing, and the other calls are as
/// those messages left them.
pub proof fn lemma_call_answered<M, T>(
    calls: Map<u128, T>,
    uuid: Uuid,
    tx: T,
    mid: Seq<ChannelMessage<M, T>>,
    status: Status<JsonValue>,
)
    requires
        forall|j: int| 0 <= j < mid.len() ==> !mentions(#[trigger] mid[j], uuid@),
    ensures
        ({
            let queued = seq![ChannelMessage::QueueResponseListener { uuid, tx }] + mid;
            let msgs = queued + seq![ChannelMessage::TriggerResponse { uuid, status }];
            let (after, actions) = registry_run(calls, msgs);
            &&& actions.len() == msgs.len()
            &&& actions.last() == ChannelAction::<M, T>::Deliver(tx, status)
            &&& after == registry_run(calls, queued).0.remove(uuid@)
        }),
{
    let q = ChannelMessage::<M, T>::QueueResponseListener { uuid, tx };
    let t = ChannelMessage::<M, T>::TriggerResponse { uuid, status };
    let queued = seq![q] + mid;
    assert forall|j: int| 0 < j < queued.len() implies !mentions(#[trigger] queued[j], uuid@) by {
        assert(queued[j] == mid[j - 1]);
    }
    assert(queued[0] == q);
    lemma_run_last_mention(calls, queued, uuid@, 0);
    let msgs = queued + seq![t];
    assert(msgs =~= queued.push(t));
    lemma_run_append(calls, queued, t);
    lemma_run_len(calls, msgs);
}

} // verus!
