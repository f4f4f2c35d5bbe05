//! Properties of the relay over runs of several steps.
use vstd::prelude::*;
use crate::archive::{conversation_of, ArchiveView, MessageView};
use crate::bridge::{InboundEvent, Payload};
use crate::protocol::{ChatRequestView, ChatResponseView, RelayError};
use crate::relay::{
    author_of, counterparty_of, handle_spec, only_note, step_spec, ForwardView, Origin, ReplyView,
    RelayView,
};

verus! {

/// The state after the router has handled each `(request, origin, source)` of
/// `reqs` in turn, from `s`.
pub open spec fn run_handled(s: RelayView, reqs: Seq<(ChatRequestView, Origin, Seq<char>)>) -> RelayView
    decreases reqs.len(),
{
    if reqs.len() == 0 {
        s
    } else {
        let (req, origin, source) = reqs.last();
        handle_spec(run_handled(s, reqs.drop_last()), req, origin, source).0
    }
}

/// The messages of `reqs` exchanged with `k`, in order, as seen by node `our`.
pub open spec fn exchanged(our: Seq<char>, reqs: Seq<(ChatRequestView, Origin, Seq<char>)>, k: Seq<char>) -> Seq<
    MessageView,
>
    decreases reqs.len(),
{
    if reqs.len() == 0 {
        Seq::empty()
    } else {
        let prev = exchanged(our, reqs.drop_last(), k);
        let (req, _origin, source) = reqs.last();
        match req {
            ChatRequestView::Send { target, message } => {
                if counterparty_of(our, target, source) == k {
                    prev.push(MessageView { author: author_of(our, target, source), content: message })
                } else {
                    prev
                }
            },
            ChatRequestView::HistoryQuery => prev,
        }
    }
}

/// The archive is an append-only log per counterparty: after any run of
/// requests, the conversation with `k` is what it was, followed by exactly
/// the messages exchanged with `k`, in the order they were handled; and `k`
/// has a conversation exactly when it had one or some message was exchanged
/// with it.
pub proof fn law_conversation_is_exchange_log(
    s: RelayView,
    reqs: Seq<(ChatRequestView, Origin, Seq<char>)>,
    k: Seq<char>,
)
    ensures
        run_handled(s, reqs).our == s.our,
        conversation_of(run_handled(s, reqs).archive, k) == conversation_of(s.archive, k) + exchanged(
            s.our,
            reqs,
            k,
        ),
        run_handled(s, reqs).archive.contains_key(k) <==> (s.archive.contains_key(k) || exchanged(
            s.our,
            reqs,
            k,
        ).len() > 0),
    decreases reqs.len(),
{
    if reqs.len() == 0 {
        assert(conversation_of(s.archive, k) + Seq::<MessageView>::empty() =~= conversation_of(s.archive, k));
    } else {
        let prefix = reqs.drop_last();
        law_conversation_is_exchange_log(s, prefix, k);
        let prev = run_handled(s, prefix);
        let (req, origin, source) = reqs.last();
        match req {
            ChatRequestView::Send { target, message } => {
                let before = conversation_of(s.archive, k);
                let log = exchanged(s.our, prefix, k);
                if counterparty_of(s.our, target, source) == k {
                    let m = MessageView { author: author_of(s.our, target, source), content: message };
                    assert(before + log.push(m) =~= (before + log).push(m));
                }
            },
            ChatRequestView::HistoryQuery => {},
        }
    }
}

/// The archive carried by a reply, if it carries one.
pub open spec fn carried_history(r: ReplyView) -> Option<ArchiveView> {
    match r {
        ReplyView::Rpc { response: ChatResponseView::History { messages } } => Some(messages),
        ReplyView::Http { body: Some(ChatResponseView::History { messages }), .. } => Some(messages),
        _ => None,
    }
}

/// A history query changes nothing, so asking again gives the same answer;
/// and, but for a POST, which is answered with a bare status, the answer
/// carries the whole archive as it stands.
pub proof fn law_history_query_is_snapshot(s: RelayView, origin: Origin, source: Seq<char>)
    ensures
        handle_spec(s, ChatRequestView::HistoryQuery, origin, source).0 == s,
        handle_spec(handle_spec(s, ChatRequestView::HistoryQuery, origin, source).0, ChatRequestView::HistoryQuery, origin, source)
            == handle_spec(s, ChatRequestView::HistoryQuery, origin, source),
        origin != Origin::HttpPost ==> (handle_spec(s, ChatRequestView::HistoryQuery, origin, source).1.reply matches Some(r)
            && carried_history(r) == Some(s.archive)),
{
}

/// The state after each unit of work of `evs` in turn, from `s`.
pub open spec fn run_events(s: RelayView, evs: Seq<InboundEvent>) -> RelayView
    decreases evs.len(),
{
    if evs.len() == 0 {
        s
    } else {
        step_spec(run_events(s, evs.drop_last()), evs.last()).0
    }
}

/// The channels that the live updates of a run from `s` go to, in order.
pub open spec fn push_targets(s: RelayView, evs: Seq<InboundEvent>) -> Seq<u32>
    decreases evs.len(),
{
    if evs.len() == 0 {
        Seq::empty()
    } else {
        let prev = push_targets(s, evs.drop_last());
        match step_spec(run_events(s, evs.drop_last()), evs.last()).1.push {
            Some(p) => prev.push(p.channel_id),
            None => prev,
        }
    }
}

pub open spec fn opens_no_channel(evs: Seq<InboundEvent>) -> bool {
    forall|i: int| 0 <= i < evs.len() ==> !(#[trigger] evs[i] is WebSocketOpen)
}

proof fn lemma_push_uses_channel(st: RelayView, e: InboundEvent)
    requires
        !(e is WebSocketOpen),
    ensures
        step_spec(st, e).0.channel == st.channel,
        step_spec(st, e).1.push matches Some(p) ==> st.channel == Some(p.channel_id),
{
}

proof fn lemma_channel_kept(s: RelayView, evs: Seq<InboundEvent>)
    requires
        opens_no_channel(evs),
    ensures
        run_events(s, evs).channel == s.channel,
        forall|i: int| 0 <= i < push_targets(s, evs).len() ==> s.channel == Some(#[trigger] push_targets(s, evs)[i]),
    decreases evs.len(),
{
    if evs.len() > 0 {
        let prefix = evs.drop_last();
        assert(opens_no_channel(prefix)) by {
            assert forall|i: int| 0 <= i < prefix.len() implies !(#[trigger] prefix[i] is WebSocketOpen) by {
                assert(prefix[i] == evs[i]);
            }
        }
        assert(!(evs[evs.len() - 1] is WebSocketOpen));
        lemma_channel_kept(s, prefix);
        lemma_push_uses_channel(run_events(s, prefix), evs.last());
        let prev = push_targets(s, prefix);
        let all = push_targets(s, evs);
        assert forall|i: int| 0 <= i < all.len() implies s.channel == Some(#[trigger] all[i]) by {
            if i < prev.len() {
                assert(all[i] == prev[i]);
            }
        }
    }
}

/// Once the UI opens `first` and then `second`, every later live update goes
/// to `second`, as long as no other channel is opened.
pub proof fn law_latest_channel_wins(s: RelayView, first: u32, second: u32, evs: Seq<InboundEvent>)
    requires
        opens_no_channel(evs),
    ensures
        ({
            let opened = step_spec(
                step_spec(s, InboundEvent::WebSocketOpen { channel_id: first }).0,
                InboundEvent::WebSocketOpen { channel_id: second },
            ).0;
            forall|i: int| 0 <= i < push_targets(opened, evs).len() ==> #[trigger] push_targets(opened, evs)[i] == second
        }),
{
    let opened = step_spec(
        step_spec(s, InboundEvent::WebSocketOpen { channel_id: first }).0,
        InboundEvent::WebSocketOpen { channel_id: second },
    ).0;
    assert(opened.channel == Some(second));
    lemma_channel_kept(opened, evs);
}

/// A send addressed to another node is forwarded to it once, and is archived
/// in the same step, before any outcome of the forward exists: the outcome,
/// which is only logged, cannot undo it.
pub proof fn law_send_archived_whatever_forward(
    s: RelayView,
    target: Seq<char>,
    message: Seq<char>,
    origin: Origin,
    source: Seq<char>,
)
    requires
        target != s.our,
    ensures
        ({
            let req = ChatRequestView::Send { target, message };
            let (next, effects) = handle_spec(s, req, origin, source);
            &&& effects.forward == Some(ForwardView { target, request: req })
            &&& conversation_of(next.archive, target) == conversation_of(s.archive, target).push(
                MessageView { author: s.our, content: message },
            )
        }),
{
}

/// A POST whose body does not decode changes nothing and gets no answer.
pub proof fn law_malformed_post_is_dropped(s: RelayView, source: String, method: String)
    requires
        method@ == "POST"@,
    ensures
        step_spec(s, InboundEvent::Http { source, method, body: Payload::Malformed }) == (s, only_note(
            RelayError::MalformedPayload,
        )),
{
    assert(method@ != "GET"@) by {
        reveal_strlit("GET");
        reveal_strlit("POST");
        assert(method@.len() != 3);
    }
}

} // verus!
