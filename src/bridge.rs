//! The transport bridge: classifies each inbound unit of work and turns it
//! into one normalized chat request with its origin, or into what else it
//! calls for.
use vstd::prelude::*;
use crate::protocol::{ChatRequest, ChatRequestView, RelayError};
use crate::relay::Origin;

verus! {

/// The payload of a unit of work, as the host decoded it.
#[derive(Clone, Debug)]
pub enum Payload {
    /// The unit carries no payload.
    Absent,
    /// The payload does not decode as a chat request.
    Malformed,
    /// The payload decodes as this chat request.
    Request { request: ChatRequest },
}

/// One unit of work delivered by the host runtime.
#[derive(Clone, Debug)]
pub enum InboundEvent {
    /// A request from node `source` on the inter-node channel.
    PeerRequest { source: String, payload: Payload },
    /// A response on the inter-node channel to nothing this relay awaits.
    PeerResponse { source: String },
    /// An HTTP request from the local UI, relayed by node `source`.
    Http { source: String, method: String, body: Payload },
    /// The local UI opened the channel `channel_id`.
    WebSocketOpen { channel_id: u32 },
    /// The local UI pushed `payload` over its channel, relayed by node `source`.
    WebSocketPush { source: String, payload: Payload },
    /// The local UI closed the channel `channel_id`.
    WebSocketClose { channel_id: u32 },
}

/// What a unit of work calls for.
#[derive(Clone, Debug)]
pub enum Classified {
    /// A chat request for the router.
    Chat { request: ChatRequest, origin: Origin, source: String },
    /// A new channel for live updates.
    OpenChannel { channel_id: u32 },
    /// An HTTP request refused with this status.
    Refuse { status: u16, error: RelayError },
    /// Nothing; `note` says why, where it is worth logging.
    Ignore { note: Option<RelayError> },
}

pub enum ClassifiedView {
    Chat { request: ChatRequestView, origin: Origin, source: Seq<char> },
    OpenChannel { channel_id: u32 },
    Refuse { status: u16, error: RelayError },
    Ignore { note: Option<RelayError> },
}

impl View for Classified {
    type V = ClassifiedView;

    open spec fn view(&self) -> ClassifiedView {
        match self {
            Classified::Chat { request, origin, source } => ClassifiedView::Chat {
                request: request@,
                origin: *origin,
                source: source@,
            },
            Classified::OpenChannel { channel_id } => ClassifiedView::OpenChannel { channel_id: *channel_id },
            Classified::Refuse { status, error } => ClassifiedView::Refuse { status: *status, error: *error },
            Classified::Ignore { note } => ClassifiedView::Ignore { note: *note },
        }
    }
}

/// A payload taken as a request of `origin` from `source`: a chat request
/// where it decodes, else nothing, with the reason.
pub open spec fn payload_spec(p: Payload, origin: Origin, source: Seq<char>) -> ClassifiedView {
    match p {
        Payload::Absent => ClassifiedView::Ignore { note: Some(RelayError::MissingPayload) },
        Payload::Malformed => ClassifiedView::Ignore { note: Some(RelayError::MalformedPayload) },
        Payload::Request { request } => ClassifiedView::Chat { request: request@, origin, source },
    }
}

/// What each unit of work calls for. A GET asks for the history and needs no
/// body; a POST carries a request; any other method is refused. An open
/// channel replaces the last; a close and a stray response call for nothing.
pub open spec fn classify_spec(e: InboundEvent) -> ClassifiedView {
    match e {
        InboundEvent::PeerRequest { source, payload } => payload_spec(payload, Origin::RemotePeer, source@),
        InboundEvent::PeerResponse { .. } => ClassifiedView::Ignore { note: None },
        InboundEvent::Http { source, method, body } => {
            if method@ == "GET"@ {
                ClassifiedView::Chat {
                    request: ChatRequestView::HistoryQuery,
                    origin: Origin::HttpGet,
                    source: source@,
                }
            } else if method@ == "POST"@ {
                payload_spec(body, Origin::HttpPost, source@)
            } else {
                ClassifiedView::Refuse {
                    status: crate::relay::STATUS_METHOD_NOT_ALLOWED,
                    error: RelayError::UnsupportedMethod,
                }
            }
        },
        InboundEvent::WebSocketOpen { channel_id } => ClassifiedView::OpenChannel { channel_id },
        InboundEvent::WebSocketPush { source, payload } => payload_spec(payload, Origin::WebSocket, source@),
        InboundEvent::WebSocketClose { .. } => ClassifiedView::Ignore { note: None },
    }
}

fn classify_payload(p: Payload, origin: Origin, source: String) -> (r: Classified)
    ensures
        r@ == payload_spec(p, origin, source@),
{
    match p {
        Payload::Absent => Classified::Ignore { note: Some(RelayError::MissingPayload) },
        Payload::Malformed => Classified::Ignore { note: Some(RelayError::MalformedPayload) },
        Payload::Request { request } => Classified::Chat { request, origin, source },
    }
}

/// Classifies one unit of work.
pub fn classify(e: InboundEvent) -> (r: Classified)
    ensures
        r@ == classify_spec(e),
{
    match e {
        InboundEvent::PeerRequest { source, payload } => classify_payload(payload, Origin::RemotePeer, source),
        InboundEvent::PeerResponse { .. } => Classified::Ignore { note: None },
        InboundEvent::Http { source, method, body } => {
            if method == "GET".to_owned() {
                Classified::Chat { request: ChatRequest::HistoryQuery, origin: Origin::HttpGet, source }
            } else if method == "POST".to_owned() {
                classify_payload(body, Origin::HttpPost, source)
            } else {
                Classified::Refuse {
                    status: crate::relay::STATUS_METHOD_NOT_ALLOWED,
                    error: RelayError::UnsupportedMethod,
                }
            }
        },
        InboundEvent::WebSocketOpen { channel_id } => Classified::OpenChannel { channel_id },
        InboundEvent::WebSocketPush { source, payload } => classify_payload(payload, Origin::WebSocket, source),
        InboundEvent::WebSocketClose { .. } => Classified::Ignore { note: None },
    }
}

} // verus!
