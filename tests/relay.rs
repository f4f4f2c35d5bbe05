use chat_relay::archive::{Archive, ChatMessage};
use chat_relay::bridge::{classify, Classified, InboundEvent, Payload};
use chat_relay::protocol::{ChatRequest, ChatResponse, RelayError};
use chat_relay::relay::{forward_note, ForwardOutcome, Origin, Relay, RelayPolicy, Reply};

fn s(x: &str) -> String {
    x.to_string()
}

fn relay(our: &str) -> Relay {
    Relay::new(s(our), RelayPolicy { notify_own_websocket_sends: false })
}

fn send(target: &str, message: &str) -> ChatRequest {
    ChatRequest::Send { target: s(target), message: s(message) }
}

fn pairs(r: &Relay, k: &str) -> Option<Vec<(String, String)>> {
    r.archive()
        .conversation(&s(k))
        .map(|v| v.iter().map(|m| (m.author.clone(), m.content.clone())).collect())
}

fn p(a: &str, c: &str) -> (String, String) {
    (s(a), s(c))
}

#[test]
fn local_send_is_archived_and_forwarded_once() {
    let mut r = relay("A");
    let e = r.handle(send("B", "hi"), Origin::HttpPost, &s("A"));
    assert_eq!(pairs(&r, "B"), Some(vec![p("A", "hi")]));
    let f = e.forward.expect("a forward");
    assert_eq!(f.target, "B");
    match f.request {
        ChatRequest::Send { target, message } => {
            assert_eq!(target, "B");
            assert_eq!(message, "hi");
        }
        ChatRequest::HistoryQuery => panic!("wrong request forwarded"),
    }
    assert!(matches!(e.reply, Some(Reply::Http { status: 201, body: None })));
    assert!(e.push.is_none());
    assert_eq!(e.note, None);
    assert_eq!(r.archive().len(), 1);
}

#[test]
fn inbound_peer_send_is_acked_archived_and_pushed() {
    let mut r = relay("A");
    r.step(InboundEvent::WebSocketOpen { channel_id: 7 });
    let e = r.step(InboundEvent::PeerRequest {
        source: s("B"),
        payload: Payload::Request { request: send("A", "yo") },
    });
    assert_eq!(pairs(&r, "B"), Some(vec![p("B", "yo")]));
    assert!(matches!(e.reply, Some(Reply::Rpc { response: ChatResponse::Ack })));
    assert!(e.forward.is_none());
    let push = e.push.expect("a live update");
    assert_eq!(push.channel_id, 7);
    assert_eq!(push.update.chat, "B");
    assert_eq!(push.update.author, "B");
    assert_eq!(push.update.content, "yo");
    assert_eq!(e.note, None);
}

#[test]
fn inbound_peer_send_without_channel_notes_it() {
    let mut r = relay("A");
    let e = r.handle(send("A", "yo"), Origin::RemotePeer, &s("B"));
    assert_eq!(pairs(&r, "B"), Some(vec![p("B", "yo")]));
    assert!(matches!(e.reply, Some(Reply::Rpc { response: ChatResponse::Ack })));
    assert!(e.push.is_none());
    assert_eq!(e.note, Some(RelayError::NoOpenChannel));
}

#[test]
fn malformed_post_changes_nothing_and_is_not_answered() {
    let mut r = relay("A");
    r.handle(send("B", "hi"), Origin::HttpPost, &s("A"));
    let e = r.step(InboundEvent::Http { source: s("A"), method: s("POST"), body: Payload::Malformed });
    assert!(e.reply.is_none());
    assert!(e.forward.is_none());
    assert!(e.push.is_none());
    assert_eq!(e.note, Some(RelayError::MalformedPayload));
    assert_eq!(pairs(&r, "B"), Some(vec![p("A", "hi")]));
    assert_eq!(r.archive().len(), 1);
}

#[test]
fn second_open_channel_takes_all_later_pushes() {
    let mut r = relay("A");
    r.step(InboundEvent::WebSocketOpen { channel_id: 1 });
    r.step(InboundEvent::WebSocketOpen { channel_id: 2 });
    assert_eq!(r.channel(), Some(2));
    for (i, who) in ["B", "C", "B"].iter().enumerate() {
        let e = r.step(InboundEvent::PeerRequest {
            source: s(who),
            payload: Payload::Request { request: send("A", &format!("m{}", i)) },
        });
        assert_eq!(e.push.expect("a live update").channel_id, 2);
    }
    r.step(InboundEvent::WebSocketClose { channel_id: 2 });
    assert_eq!(r.channel(), Some(2));
}

#[test]
fn failed_forward_keeps_the_archived_send() {
    let mut r = relay("A");
    let e = r.handle(send("Z", "anyone?"), Origin::WebSocket, &s("A"));
    assert!(e.forward.is_some());
    assert!(e.reply.is_none());
    assert_eq!(forward_note(ForwardOutcome::TimedOut), Some(RelayError::ForwardTimeout));
    assert_eq!(
        forward_note(ForwardOutcome::TransportFailed),
        Some(RelayError::ForwardTransportError)
    );
    assert_eq!(forward_note(ForwardOutcome::Acknowledged), None);
    assert_eq!(forward_note(ForwardOutcome::OtherAnswer), None);
    assert_eq!(pairs(&r, "Z"), Some(vec![p("A", "anyone?")]));
}

#[test]
fn conversations_keep_the_order_of_sends() {
    let mut r = relay("A");
    r.handle(send("B", "1"), Origin::HttpPost, &s("A"));
    r.handle(send("A", "2"), Origin::RemotePeer, &s("C"));
    r.handle(send("A", "3"), Origin::RemotePeer, &s("B"));
    r.handle(ChatRequest::HistoryQuery, Origin::RemotePeer, &s("B"));
    r.handle(send("C", "4"), Origin::WebSocket, &s("A"));
    r.handle(send("B", "5"), Origin::HttpPost, &s("A"));
    assert_eq!(pairs(&r, "B"), Some(vec![p("A", "1"), p("B", "3"), p("A", "5")]));
    assert_eq!(pairs(&r, "C"), Some(vec![p("C", "2"), p("A", "4")]));
    assert_eq!(pairs(&r, "D"), None);
    assert_eq!(r.archive().len(), 2);
}

fn history_of(e: &chat_relay::relay::Effects) -> Vec<(String, usize)> {
    let a = match &e.reply {
        Some(Reply::Rpc { response: ChatResponse::History { messages } }) => messages,
        Some(Reply::Http { body: Some(ChatResponse::History { messages }), .. }) => messages,
        _ => panic!("no history"),
    };
    ["B", "C"]
        .iter()
        .map(|k| (s(k), a.conversation(&s(k)).map_or(0, |v| v.len())))
        .collect()
}

#[test]
fn history_query_is_a_repeatable_snapshot() {
    let mut r = relay("A");
    r.handle(send("B", "1"), Origin::HttpPost, &s("A"));
    r.handle(send("A", "2"), Origin::RemotePeer, &s("B"));
    let first = r.handle(ChatRequest::HistoryQuery, Origin::RemotePeer, &s("C"));
    let second = r.handle(ChatRequest::HistoryQuery, Origin::RemotePeer, &s("C"));
    assert_eq!(history_of(&first), vec![(s("B"), 2), (s("C"), 0)]);
    assert_eq!(history_of(&first), history_of(&second));
    assert!(first.forward.is_none() && first.push.is_none());
    assert_eq!(pairs(&r, "B"), Some(vec![p("A", "1"), p("B", "2")]));
    r.handle(send("C", "3"), Origin::HttpPost, &s("A"));
    let third = r.handle(ChatRequest::HistoryQuery, Origin::RemotePeer, &s("C"));
    assert_eq!(history_of(&first), vec![(s("B"), 2), (s("C"), 0)]);
    assert_eq!(history_of(&third), vec![(s("B"), 2), (s("C"), 1)]);
}

#[test]
fn http_get_answers_with_history_and_200() {
    let mut r = relay("A");
    r.handle(send("B", "1"), Origin::HttpPost, &s("A"));
    let e = r.step(InboundEvent::Http { source: s("A"), method: s("GET"), body: Payload::Absent });
    assert!(matches!(e.reply, Some(Reply::Http { status: 200, body: Some(_) })));
    assert_eq!(history_of(&e), vec![(s("B"), 1), (s("C"), 0)]);
}

#[test]
fn http_post_send_answers_201() {
    let mut r = relay("A");
    let e = r.step(InboundEvent::Http {
        source: s("A"),
        method: s("POST"),
        body: Payload::Request { request: send("B", "x") },
    });
    assert!(matches!(e.reply, Some(Reply::Http { status: 201, body: None })));
    assert!(e.forward.is_some());
    assert_eq!(pairs(&r, "B"), Some(vec![p("A", "x")]));
}

#[test]
fn other_http_methods_are_refused_with_405() {
    let mut r = relay("A");
    let e = r.step(InboundEvent::Http {
        source: s("A"),
        method: s("DELETE"),
        body: Payload::Request { request: send("B", "x") },
    });
    assert!(matches!(e.reply, Some(Reply::Http { status: 405, body: None })));
    assert_eq!(e.note, Some(RelayError::UnsupportedMethod));
    assert_eq!(r.archive().len(), 0);
}

#[test]
fn missing_payload_is_dropped() {
    let mut r = relay("A");
    let e = r.step(InboundEvent::WebSocketPush { source: s("A"), payload: Payload::Absent });
    assert!(e.reply.is_none() && e.forward.is_none() && e.push.is_none());
    assert_eq!(e.note, Some(RelayError::MissingPayload));
    let e = r.step(InboundEvent::PeerRequest { source: s("B"), payload: Payload::Malformed });
    assert!(e.reply.is_none());
    assert_eq!(e.note, Some(RelayError::MalformedPayload));
    let e = r.step(InboundEvent::PeerResponse { source: s("B") });
    assert!(e.reply.is_none() && e.note.is_none());
    assert_eq!(r.archive().len(), 0);
}

#[test]
fn websocket_send_follows_the_policy() {
    let mut quiet = relay("A");
    quiet.step(InboundEvent::WebSocketOpen { channel_id: 3 });
    let e = quiet.step(InboundEvent::WebSocketPush {
        source: s("A"),
        payload: Payload::Request { request: send("B", "hey") },
    });
    assert!(e.push.is_none() && e.reply.is_none());
    assert!(e.forward.is_some());

    let mut loud = Relay::new(s("A"), RelayPolicy { notify_own_websocket_sends: true });
    assert!(loud.policy().notify_own_websocket_sends);
    loud.step(InboundEvent::WebSocketOpen { channel_id: 3 });
    let e = loud.step(InboundEvent::WebSocketPush {
        source: s("A"),
        payload: Payload::Request { request: send("B", "hey") },
    });
    let push = e.push.expect("a live update");
    assert_eq!(push.channel_id, 3);
    assert_eq!((push.update.chat.as_str(), push.update.author.as_str()), ("B", "A"));
    assert_eq!(pairs(&loud, "B"), Some(vec![p("A", "hey")]));
}

#[test]
fn send_to_self_is_not_forwarded() {
    let mut r = relay("A");
    let e = r.handle(send("A", "note"), Origin::HttpPost, &s("A"));
    assert!(e.forward.is_none());
    assert_eq!(pairs(&r, "A"), Some(vec![p("A", "note")]));
    assert_eq!(r.our(), "A");
}

#[test]
fn classify_sorts_units() {
    assert!(matches!(
        classify(InboundEvent::Http { source: s("A"), method: s("GET"), body: Payload::Malformed }),
        Classified::Chat { request: ChatRequest::HistoryQuery, origin: Origin::HttpGet, .. }
    ));
    assert!(matches!(
        classify(InboundEvent::WebSocketOpen { channel_id: 9 }),
        Classified::OpenChannel { channel_id: 9 }
    ));
    assert!(matches!(
        classify(InboundEvent::Http { source: s("A"), method: s("get"), body: Payload::Absent }),
        Classified::Refuse { status: 405, error: RelayError::UnsupportedMethod }
    ));
    assert!(matches!(
        classify(InboundEvent::WebSocketClose { channel_id: 9 }),
        Classified::Ignore { note: None }
    ));
}

#[test]
fn archive_appends_and_snapshots() {
    let mut a = Archive::new();
    assert_eq!(a.len(), 0);
    assert!(!a.contains(&s("B")));
    a.append(&s("B"), ChatMessage::new(s("A"), s("one")));
    a.append(&s("C"), ChatMessage::new(s("C"), s("two")));
    a.append(&s("B"), ChatMessage::new(s("B"), s("three")));
    let copy = a.snapshot();
    a.append(&s("B"), ChatMessage::new(s("A"), s("four")));
    assert_eq!(copy.len(), 2);
    assert_eq!(copy.conversation(&s("B")).unwrap().len(), 2);
    assert_eq!(a.conversation(&s("B")).unwrap().len(), 3);
    assert_eq!(a.conversation(&s("B")).unwrap()[2].content, "four");
    assert_eq!(copy.conversation(&s("C")).unwrap()[0].author, "C");
    assert!(a.contains(&s("C")));
    let mut keys = a.counterparties();
    keys.sort();
    assert_eq!(keys, vec![s("B"), s("C")]);
}

#[test]
fn empty_message_is_still_a_message() {
    let mut r = relay("A");
    r.handle(send("B", ""), Origin::HttpPost, &s("A"));
    assert_eq!(pairs(&r, "B"), Some(vec![p("A", "")]));
}

