//! Laws of the session: what holds of every state and of every sequence of
//! operations and inbound messages, stated over the session's model.

use vstd::prelude::*;
use crate::message::Message;
use crate::session::{carried_error, Action, SessionView};
use crate::types::{
    CallResponse, ErrorKind, PublishResponse, RegisterResponse, Reply, SubscribeResponse,
};

verus! {

/// The request that a message answers, if it is a reply.
pub open spec fn answered_request(msg: Message) -> Option<i64> {
    match msg {
        Message::Registered { request_id, .. } => Some(request_id),
        Message::Unregistered { request_id } => Some(request_id),
        Message::Subscribed { request_id, .. } => Some(request_id),
        Message::Unsubscribed { request_id } => Some(request_id),
        Message::Result { request_id, .. } => Some(request_id),
        Message::Published { request_id, .. } => Some(request_id),
        Message::Error { request_id, .. } => Some(request_id),
        _ => None,
    }
}

/// The state after a sequence of inbound messages was dispatched in order.
pub open spec fn after_messages<T, RH, EH>(
    s: SessionView<T, RH, EH>,
    msgs: Seq<Message>,
) -> SessionView<T, RH, EH>
    decreases msgs.len(),
{
    if msgs.len() == 0 {
        s
    } else {
        after_messages(s, msgs.drop_last()).receive(msgs.last()).0
    }
}

/// The state after calls were started one after the other, one for each of
/// the given reply channels.
pub open spec fn after_calls<T, RH, EH>(
    s: SessionView<T, RH, EH>,
    channels: Seq<T>,
) -> SessionView<T, RH, EH>
    decreases channels.len(),
{
    if channels.len() == 0 {
        s
    } else {
        after_calls(s, channels.drop_last()).with_call(channels.last())
    }
}

/// A call is answered exactly once, and on its own channel: after a call was
/// started on `channel`, the RESULT that carries its request id is
/// delivered to that channel with the payload it carries; the request is then
/// pending no more, the other pending calls are untouched, and a second
/// RESULT with that id is ignored.
pub proof fn law_call_answered_once<T, RH, EH>(
    s: SessionView<T, RH, EH>,
    channel: T,
    first: Message,
    second: Message,
)
    requires
        s.wf(),
        s.refusal() is None,
        first matches Message::Result { request_id, .. } && request_id == s.fresh_id(),
        second matches Message::Result { request_id, .. } && request_id == s.fresh_id(),
    ensures
        ({
            let started = s.with_call(channel);
            let (answered, action) = started.receive(first);
            &&& started.wf()
            &&& first matches Message::Result { args, kwargs, .. } && action == (Action::Deliver {
                channel,
                reply: Reply::Call(CallResponse { args, kwargs, error: None }),
            })
            &&& !answered.is_pending(s.fresh_id())
            &&& answered.calls == s.calls
            &&& answered.receive(second) == (answered, Action::<T>::Ignore)
        }),
{
    let started = s.with_call(channel);
    crate::session::lemma_started_keeps_wf(s, started);
    assert(!s.is_pending(s.fresh_id()));
    let answered = started.receive(first).0;
    assert(answered.calls =~= s.calls);
}

/// A registration, a subscription and an acknowledged publication are each
/// answered on their own channel: the reply that carries the request id is
/// delivered to the channel the request was started with, and the request is
/// then pending no more. With the reply to a registration or subscription
/// the handler is installed under the id that the router chose.
pub proof fn law_requests_answered_on_their_channel<T, RH, EH>(
    s: SessionView<T, RH, EH>,
    channel: T,
    procedure_handler: RH,
    event_handler: EH,
    router_id: i64,
)
    requires
        s.wf(),
        s.refusal() is None,
    ensures
        ({
            let id = s.fresh_id();
            let (after, action) = s.with_register(channel, procedure_handler).receive(
                Message::Registered { request_id: id, registration_id: router_id },
            );
            &&& action == (Action::Deliver {
                channel,
                reply: Reply::Register(RegisterResponse { registration_id: router_id, error: None }),
            })
            &&& !after.is_pending(id)
            &&& after.registrations == s.registrations.insert(router_id, procedure_handler)
        }),
        ({
            let id = s.fresh_id();
            let (after, action) = s.with_subscribe(channel, event_handler).receive(
                Message::Subscribed { request_id: id, subscription_id: router_id },
            );
            &&& action == (Action::Deliver {
                channel,
                reply: Reply::Subscribe(
                    SubscribeResponse { subscription_id: router_id, error: None },
                ),
            })
            &&& !after.is_pending(id)
            &&& after.subscriptions == s.subscriptions.insert(router_id, event_handler)
        }),
        ({
            let id = s.fresh_id();
            let (after, action) = s.with_publish(channel).receive(
                Message::Published { request_id: id, publication_id: router_id },
            );
            &&& action == (Action::Deliver {
                channel,
                reply: Reply::Publish(PublishResponse { error: None }),
            })
            &&& !after.is_pending(id)
        }),
{
    assert(!s.is_pending(s.fresh_id()));
}

/// A message touches no request but the one it answers: every other
/// request that was pending stays pending on its channel, unless the
/// message is the GOODBYE that ends the session.
pub proof fn law_other_requests_untouched<T, RH, EH>(
    s: SessionView<T, RH, EH>,
    msg: Message,
    other: i64,
)
    requires
        s.wf(),
        !(msg is Goodbye),
        answered_request(msg) != Some(other),
    ensures
        s.receive(msg).0.channel_of(other) == s.channel_of(other),
        s.receive(msg).0.is_pending(other) == s.is_pending(other),
{
}

/// After calls were started on `channels`, exactly as many more calls are
/// pending as channels were given.
pub proof fn law_pending_calls_counted<T, RH, EH>(s: SessionView<T, RH, EH>, channels: Seq<T>)
    requires
        s.wf(),
        !s.exited,
        s.next_id + channels.len() <= crate::idgen::MAX_REQUEST_ID + 1,
    ensures
        after_calls(s, channels).wf(),
        !after_calls(s, channels).exited,
        after_calls(s, channels).next_id == s.next_id + channels.len(),
        after_calls(s, channels).calls.len() == s.calls.len() + channels.len(),
    decreases channels.len(),
{
    if channels.len() > 0 {
        law_pending_calls_counted(s, channels.drop_last());
        let before = after_calls(s, channels.drop_last());
        let after = before.with_call(channels.last());
        crate::session::lemma_started_keeps_wf(before, after);
        assert(!before.is_pending(before.fresh_id()));
        assert(!before.calls.dom().contains(before.fresh_id()));
        assert(after.calls.dom() =~= before.calls.dom().insert(before.fresh_id()));
    }
}

/// Whether none of the messages answers the request `id`.
pub open spec fn unanswered(msgs: Seq<Message>, id: i64) -> bool {
    forall|i: int| 0 <= i < msgs.len() ==> answered_request(#[trigger] msgs[i]) != Some(id)
}

/// Dispatching only RESULT messages leaves pending exactly the calls that
/// none of them answers.
pub proof fn lemma_results_remove_their_calls<T, RH, EH>(
    s: SessionView<T, RH, EH>,
    msgs: Seq<Message>,
)
    requires
        s.wf(),
        !s.exited,
        forall|i: int| 0 <= i < msgs.len() ==> #[trigger] msgs[i] is Result,
    ensures
        after_messages(s, msgs).wf(),
        !after_messages(s, msgs).exited,
        forall|id: i64| #[trigger]
            after_messages(s, msgs).calls.contains_key(id) <==> s.calls.contains_key(id)
                && unanswered(msgs, id),
    decreases msgs.len(),
{
    if msgs.len() > 0 {
        let front = msgs.drop_last();
        assert forall|i: int| 0 <= i < front.len() implies #[trigger] front[i] is Result by {
            assert(front[i] == msgs[i]);
        }
        lemma_results_remove_their_calls(s, front);
        let before = after_messages(s, front);
        crate::session::lemma_receive_keeps_wf(before, msgs.last());
        let after = after_messages(s, msgs);
        assert(msgs[msgs.len() - 1] is Result);
        assert(after == before.receive(msgs.last()).0);
        assert forall|id: i64| #[trigger]
            after.calls.contains_key(id) <==> s.calls.contains_key(id) && unanswered(
                msgs,
                id,
            ) by {
            assert(before.calls.contains_key(id) <==> s.calls.contains_key(id) && unanswered(
                front,
                id,
            ));
            if unanswered(msgs, id) {
                assert forall|i: int| 0 <= i < front.len() implies answered_request(
                    #[trigger] front[i],
                ) != Some(id) by {
                    assert(front[i] == msgs[i]);
                }
                assert(answered_request(msgs[msgs.len() - 1]) != Some(id));
            }
            if unanswered(front, id) && answered_request(msgs.last()) != Some(id) {
                assert forall|i: int| 0 <= i < msgs.len() implies answered_request(
                    #[trigger] msgs[i],
                ) != Some(id) by {
                    if i < front.len() {
                        assert(front[i] == msgs[i]);
                    }
                }
            }
        }
    }
}

/// Once every pending call has had its RESULT, no call is pending.
pub proof fn law_answered_calls_drained<T, RH, EH>(s: SessionView<T, RH, EH>, msgs: Seq<Message>)
    requires
        s.wf(),
        !s.exited,
        forall|i: int| 0 <= i < msgs.len() ==> #[trigger] msgs[i] is Result,
        forall|id: i64| #[trigger] s.calls.contains_key(id) ==> !unanswered(msgs, id),
    ensures
        after_messages(s, msgs).calls == Map::<i64, T>::empty(),
        after_messages(s, msgs).calls.len() == 0,
{
    lemma_results_remove_their_calls(s, msgs);
    let after = after_messages(s, msgs);
    assert forall|id: i64| !after.calls.contains_key(id) by {
        if after.calls.contains_key(id) {
            assert(s.calls.contains_key(id));
        }
    }
    assert(after.calls =~= Map::<i64, T>::empty());
}

/// Request ids grow: starting an operation uses the fresh id and makes the
/// next fresh id larger by one, and dispatching a message changes neither.
pub proof fn law_request_ids_increase<T, RH, EH>(
    s: SessionView<T, RH, EH>,
    channel: T,
    msg: Message,
)
    requires
        s.wf(),
        s.refusal() is None,
    ensures
        s.with_call(channel).fresh_id() == s.fresh_id() + 1,
        s.with_publish(channel).fresh_id() == s.fresh_id() + 1,
        s.with_id_used().fresh_id() == s.fresh_id() + 1,
        s.receive(msg).0.next_id == s.next_id,
        forall|id: i64| #[trigger] s.is_pending(id) ==> id < s.fresh_id(),
{
}

/// A RESULT or an ERROR that answers no pending request is dropped: the
/// session stays as it was and nothing is asked of the caller.
pub proof fn law_unsolicited_reply_dropped<T, RH, EH>(s: SessionView<T, RH, EH>, msg: Message)
    requires
        msg is Result || msg is Error,
        answered_request(msg) matches Some(id) && !s.is_pending(id),
    ensures
        s.receive(msg) == (s, Action::<T>::Ignore),
{
}

/// GOODBYE from the router ends the session: the caller is told to
/// disconnect, nothing stays pending, every later operation is refused with
/// a transport error, and every later message is ignored.
pub proof fn law_goodbye_ends_session<T, RH, EH>(
    s: SessionView<T, RH, EH>,
    goodbye: Message,
    later: Message,
)
    requires
        s.wf(),
        !s.exited,
        goodbye is Goodbye,
    ensures
        ({
            let (after, action) = s.receive(goodbye);
            &&& action == (Action::<T>::Disconnect { leave_acknowledged: s.goodbye_sent })
            &&& after.wf()
            &&& after.exited
            &&& after.nothing_pending()
            &&& after.refusal() == Some(ErrorKind::Transport)
            &&& after.receive(later) == (after, Action::<T>::Ignore)
        }),
{
    crate::session::lemma_receive_keeps_wf(s, goodbye);
}

/// A leave is acknowledged only together with the end of the session: in
/// every well-formed state in which the router's answer to GOODBYE has been
/// seen, the session has ended; and dispatching a message makes the leave
/// acknowledged only if it is GOODBYE and GOODBYE had been sent.
pub proof fn law_leave_implies_disconnect<T, RH, EH>(s: SessionView<T, RH, EH>, msg: Message)
    requires
        s.wf(),
    ensures
        s.goodbye_acked ==> s.exited,
        s.receive(msg).0.goodbye_acked ==> s.receive(msg).0.exited,
        !s.goodbye_acked && s.receive(msg).0.goodbye_acked ==> msg is Goodbye && s.goodbye_sent,
{
}

/// A handler runs only while it is installed: an invocation or an event is
/// passed on only if a handler is installed under its id, which is so from
/// the REGISTERED or SUBSCRIBED that names the id until the UNREGISTERED or
/// UNSUBSCRIBED that answers its removal.
pub proof fn law_handlers_run_only_while_installed<T, RH, EH>(
    s: SessionView<T, RH, EH>,
    msg: Message,
)
    requires
        s.wf(),
    ensures
        s.receive(msg).1 matches Action::Invoke { registration_id, .. }
            ==> s.registrations.contains_key(registration_id),
        s.receive(msg).1 matches Action::Notify { subscription_id, .. }
            ==> s.subscriptions.contains_key(subscription_id),
        msg matches Message::Invocation { registration_id, .. } && !s.registrations.contains_key(
            registration_id,
        ) ==> s.receive(msg) == (s, Action::<T>::Ignore),
        msg matches Message::Event { subscription_id, .. } && !s.subscriptions.contains_key(
            subscription_id,
        ) ==> s.receive(msg) == (s, Action::<T>::Ignore),
        msg matches Message::Unregistered { request_id } ==> (!s.exited
            && s.unregisters.contains_key(request_id) ==> !s.receive(
            msg,
        ).0.registrations.contains_key(s.unregisters[request_id].1)),
        msg matches Message::Unsubscribed { request_id } ==> (!s.exited
            && s.unsubscribes.contains_key(request_id) ==> !s.receive(
            msg,
        ).0.subscriptions.contains_key(s.unsubscribes[request_id].1)),
{
}

/// A publication that asks for no acknowledgement leaves no trace among
/// the pending requests: it uses a request id and nothing else.
pub proof fn law_unacknowledged_publish_leaves_nothing_pending<T, RH, EH>(
    s: SessionView<T, RH, EH>,
    id: i64,
)
    ensures
        s.with_id_used().channel_of(id) == s.channel_of(id),
        s.with_id_used().pending_classes(id) == s.pending_classes(id),
        s.with_id_used().publishes == s.publishes,
{
}

/// An ERROR for a call is delivered to the caller as the error of its
/// response, with no payload beside it.
pub proof fn law_call_error_delivered<T, RH, EH>(
    s: SessionView<T, RH, EH>,
    channel: T,
    msg: Message,
)
    requires
        s.wf(),
        s.refusal() is None,
        msg matches Message::Error { message_type, request_id, .. } && message_type == 48
            && request_id == s.fresh_id(),
    ensures
        msg matches Message::Error { uri, args, kwargs, .. } && s.with_call(channel).receive(msg).1
            == (Action::Deliver {
            channel,
            reply: Reply::Call(
                CallResponse { args: None, kwargs: None, error: Some(carried_error(uri, args, kwargs)) },
            ),
        }),
        !s.with_call(channel).receive(msg).0.is_pending(s.fresh_id()),
{
    assert(!s.is_pending(s.fresh_id()));
}

/// One thing that happens to a session: an operation that a caller starts
/// or gives up, the end of the transport, or a message from the router.
pub enum Step<T, RH, EH> {
    Call(T),
    Register(T, RH),
    Unregister(T, i64),
    Publish(T),
    PublishUnacknowledged,
    Subscribe(T, EH),
    Unsubscribe(T, i64),
    Cancel(i64),
    Leave,
    Close,
    Receive(Message),
}

/// The state after one step. An operation that the session refuses leaves
/// it as it was.
pub open spec fn after_step<T, RH, EH>(
    s: SessionView<T, RH, EH>,
    step: Step<T, RH, EH>,
) -> SessionView<T, RH, EH> {
    match step {
        Step::Call(channel) => if s.refusal() is None {
            s.with_call(channel)
        } else {
            s
        },
        Step::Register(channel, handler) => if s.refusal() is None {
            s.with_register(channel, handler)
        } else {
            s
        },
        Step::Unregister(channel, id) => if s.refusal() is None {
            s.with_unregister(channel, id)
        } else {
            s
        },
        Step::Publish(channel) => if s.refusal() is None {
            s.with_publish(channel)
        } else {
            s
        },
        Step::PublishUnacknowledged => if s.refusal() is None {
            s.with_id_used()
        } else {
            s
        },
        Step::Subscribe(channel, handler) => if s.refusal() is None {
            s.with_subscribe(channel, handler)
        } else {
            s
        },
        Step::Unsubscribe(channel, id) => if s.refusal() is None {
            s.with_unsubscribe(channel, id)
        } else {
            s
        },
        Step::Cancel(id) => s.without(id),
        Step::Leave => if s.exited {
            s
        } else {
            SessionView { goodbye_sent: true, ..s }
        },
        Step::Close => s.ended(s.goodbye_acked),
        Step::Receive(msg) => s.receive(msg).0,
    }
}

/// Whether a step delivers a reply to the request `id`.
pub open spec fn answers<T, RH, EH>(
    s: SessionView<T, RH, EH>,
    step: Step<T, RH, EH>,
    id: i64,
) -> bool {
    step matches Step::Receive(msg) && answered_request(msg) == Some(id) && s.receive(msg).1 is Deliver
}

/// Whether the request id `id` has been used and awaits nothing any more.
pub open spec fn spent<T, RH, EH>(s: SessionView<T, RH, EH>, id: i64) -> bool {
    id < s.next_id && !s.is_pending(id)
}

/// The state after a sequence of steps, taken in order.
pub open spec fn after_steps<T, RH, EH>(
    s: SessionView<T, RH, EH>,
    steps: Seq<Step<T, RH, EH>>,
) -> SessionView<T, RH, EH>
    decreases steps.len(),
{
    if steps.len() == 0 {
        s
    } else {
        after_steps(after_step(s, steps[0]), steps.drop_first())
    }
}

/// The number of replies that a sequence of steps delivers to the request
/// `id`.
pub open spec fn replies_delivered<T, RH, EH>(
    s: SessionView<T, RH, EH>,
    steps: Seq<Step<T, RH, EH>>,
    id: i64,
) -> nat
    decreases steps.len(),
{
    if steps.len() == 0 {
        0
    } else {
        let now: nat = if answers(s, steps[0], id) {
            1
        } else {
            0
        };
        now + replies_delivered(after_step(s, steps[0]), steps.drop_first(), id)
    }
}

/// Every step keeps the session well-formed. A request id that is spent
/// stays spent and is answered no more, and a request that is answered is
/// spent thereby.
pub proof fn lemma_step<T, RH, EH>(s: SessionView<T, RH, EH>, step: Step<T, RH, EH>, id: i64)
    requires
        s.wf(),
    ensures
        after_step(s, step).wf(),
        after_step(s, step).next_id >= s.next_id,
        spent(s, id) ==> spent(after_step(s, step), id) && !answers(s, step, id),
        answers(s, step, id) ==> spent(after_step(s, step), id),
{
    let after = after_step(s, step);
    assert(s.is_pending(id) ==> id < s.next_id);
    assert(s.pending_classes(id) <= 1);
    match step {
        Step::Cancel(gone) => {
            crate::session::lemma_without_is_wf(s, gone);
        },
        Step::Close => {
            crate::session::lemma_ended_is_wf(s, s.goodbye_acked);
        },
        Step::Receive(msg) => {
            crate::session::lemma_receive_keeps_wf(s, msg);
        },
        Step::Leave => {
            assert forall|other: i64| #[trigger]
                after.pending_classes(other) == s.pending_classes(other) by {}
            assert forall|other: i64| #[trigger] after.is_pending(other) implies 1 <= other
                < after.next_id by {
                assert(s.is_pending(other));
            }
            assert forall|other: i64| #[trigger] after.pending_classes(other) <= 1 by {
                assert(s.pending_classes(other) <= 1);
            }
        },
        _ => {
            if s.refusal() is None {
                crate::session::lemma_started_keeps_wf(s, after);
            }
        },
    }
}

/// Whatever callers and router do, and in whatever order, the session stays
/// well-formed and no request is answered twice: over any sequence of steps
/// at most one reply is delivered to a request id, and none to one that is
/// spent.
pub proof fn law_answered_at_most_once<T, RH, EH>(
    s: SessionView<T, RH, EH>,
    steps: Seq<Step<T, RH, EH>>,
    id: i64,
)
    requires
        s.wf(),
    ensures
        after_steps(s, steps).wf(),
        replies_delivered(s, steps, id) <= 1,
        spent(s, id) ==> replies_delivered(s, steps, id) == 0,
    decreases steps.len(),
{
    if steps.len() > 0 {
        lemma_step(s, steps[0], id);
        law_answered_at_most_once(after_step(s, steps[0]), steps.drop_first(), id);
    }
}

/// Whether a step starts an operation, which uses the fresh request id.
pub open spec fn uses_fresh_id<T, RH, EH>(
    s: SessionView<T, RH, EH>,
    step: Step<T, RH, EH>,
) -> bool {
    s.refusal() is None && (step is Call || step is Register || step is Unregister
        || step is Publish || step is PublishUnacknowledged || step is Subscribe
        || step is Unsubscribe)
}

/// Request ids are never used twice: once an operation has used the fresh
/// id, every operation that starts later, after whatever steps, uses a
/// larger one.
pub proof fn law_later_ids_are_larger<T, RH, EH>(
    s: SessionView<T, RH, EH>,
    first: Step<T, RH, EH>,
    between: Seq<Step<T, RH, EH>>,
)
    requires
        s.wf(),
        uses_fresh_id(s, first),
    ensures
        after_steps(after_step(s, first), between).wf(),
        after_steps(after_step(s, first), between).next_id > s.next_id,
        after_steps(after_step(s, first), between).refusal() is None ==> after_steps(
            after_step(s, first),
            between,
        ).fresh_id() > s.fresh_id(),
{
    lemma_step(s, first, 0);
    lemma_ids_never_decrease(after_step(s, first), between);
}

/// The next request id never decreases.
pub proof fn lemma_ids_never_decrease<T, RH, EH>(
    s: SessionView<T, RH, EH>,
    steps: Seq<Step<T, RH, EH>>,
)
    requires
        s.wf(),
    ensures
        after_steps(s, steps).wf(),
        after_steps(s, steps).next_id >= s.next_id,
    decreases steps.len(),
{
    if steps.len() > 0 {
        lemma_step(s, steps[0], 0);
        lemma_ids_never_decrease(after_step(s, steps[0]), steps.drop_first());
    }
}

} // verus!
