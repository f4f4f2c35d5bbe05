//! The chat router: from a normalized request and its origin to the archive's
//! next state and the effects the host carries out.
use vstd::prelude::*;
use crate::bridge::{classify, classify_spec, Classified, ClassifiedView, InboundEvent};
use crate::archive::{archive_append, Archive, ArchiveView, ChatMessage, MessageView};
use crate::protocol::{
    ChatRequest, ChatRequestView, ChatResponse, ChatResponseView, NewMessage, NewMessageView,
    RelayError,
};

verus! {

/// HTTP status of a created resource: the answer to a POST.
pub const STATUS_CREATED: u16 = 201;

/// HTTP status of a successful GET.
pub const STATUS_OK: u16 = 200;

/// HTTP status of a request whose method is not served.
pub const STATUS_METHOD_NOT_ALLOWED: u16 = 405;

/// Where a chat request came from.
#[derive(Clone, Copy, Debug, PartialEq, Eq, Structural)]
pub enum Origin {
    /// A peer's relay, over the inter-node request channel.
    RemotePeer,
    /// The local UI, by HTTP GET.
    HttpGet,
    /// The local UI, by HTTP POST.
    HttpPost,
    /// The local UI, by a push over its WebSocket channel.
    WebSocket,
}

/// An answer to the unit of work being handled.
#[derive(Clone, Debug)]
pub enum Reply {
    /// A response on the inter-node request channel.
    Rpc { response: ChatResponse },
    /// An HTTP response with this status, carrying `body` as JSON if present.
    Http { status: u16, body: Option<ChatResponse> },
}

pub enum ReplyView {
    Rpc { response: ChatResponseView },
    Http { status: u16, body: Option<ChatResponseView> },
}

impl View for Reply {
    type V = ReplyView;

    open spec fn view(&self) -> ReplyView {
        match self {
            Reply::Rpc { response } => ReplyView::Rpc { response: response@ },
            Reply::Http { status, body } => ReplyView::Http {
                status: *status,
                body: match body {
                    Some(b) => Some(b@),
                    None => None,
                },
            },
        }
    }
}

/// A request to re-send to the relay on node `target`.
#[derive(Clone, Debug)]
pub struct Forward {
    pub target: String,
    pub request: ChatRequest,
}

pub struct ForwardView {
    pub target: Seq<char>,
    pub request: ChatRequestView,
}

/// A live update for the local UI's channel `channel_id`.
#[derive(Clone, Debug)]
pub struct Push {
    pub channel_id: u32,
    pub update: NewMessage,
}

pub struct PushView {
    pub channel_id: u32,
    pub update: NewMessageView,
}

/// What the host does after one unit of work: at most one answer, one
/// forward and one live update, and at most one error to log.
#[derive(Clone, Debug)]
pub struct Effects {
    pub reply: Option<Reply>,
    pub forward: Option<Forward>,
    pub push: Option<Push>,
    pub note: Option<RelayError>,
}

pub struct EffectsView {
    pub reply: Option<ReplyView>,
    pub forward: Option<ForwardView>,
    pub push: Option<PushView>,
    pub note: Option<RelayError>,
}

impl View for Effects {
    type V = EffectsView;

    open spec fn view(&self) -> EffectsView {
        EffectsView {
            reply: match self.reply {
                Some(r) => Some(r@),
                None => None,
            },
            forward: match self.forward {
                Some(f) => Some(ForwardView { target: f.target@, request: f.request@ }),
                None => None,
            },
            push: match self.push {
                Some(p) => Some(PushView { channel_id: p.channel_id, update: p.update@ }),
                None => None,
            },
            note: self.note,
        }
    }
}

pub open spec fn no_effects() -> EffectsView {
    EffectsView { reply: None, forward: None, push: None, note: None }
}

pub open spec fn only_note(note: RelayError) -> EffectsView {
    EffectsView { reply: None, forward: None, push: None, note: Some(note) }
}

/// How the relay treats its own UI: whether a send that the local UI made over
/// its WebSocket is also pushed back to that UI as a live update.
#[derive(Clone, Copy, Debug, PartialEq, Eq, Structural)]
pub struct RelayPolicy {
    pub notify_own_websocket_sends: bool,
}

/// The relay's state: its own node id, the archive, the channel most recently
/// opened by the local UI, and the policy.
#[derive(Debug)]
pub struct Relay {
    our: String,
    archive: Archive,
    channel: Option<u32>,
    policy: RelayPolicy,
}

pub struct RelayView {
    pub our: Seq<char>,
    pub archive: ArchiveView,
    pub channel: Option<u32>,
    pub policy: RelayPolicy,
}

impl View for Relay {
    type V = RelayView;

    closed spec fn view(&self) -> RelayView {
        RelayView { our: self.our@, archive: self.archive@, channel: self.channel, policy: self.policy }
    }
}

/// The other party of a send addressed to `target` and received from `source`:
/// the source when the send is addressed to us, else the target.
pub open spec fn counterparty_of(our: Seq<char>, target: Seq<char>, source: Seq<char>) -> Seq<char> {
    if target == our {
        source
    } else {
        target
    }
}

/// The author of such a send: the source when it is addressed to us, else us.
pub open spec fn author_of(our: Seq<char>, target: Seq<char>, source: Seq<char>) -> Seq<char> {
    if target == our {
        source
    } else {
        our
    }
}

/// Whether a send of this origin is pushed to the local UI.
pub open spec fn notifies(origin: Origin, policy: RelayPolicy) -> bool {
    origin == Origin::RemotePeer || (origin == Origin::WebSocket && policy.notify_own_websocket_sends)
}

/// The answer to a history query of this origin.
pub open spec fn history_reply(origin: Origin, a: ArchiveView) -> ReplyView {
    match origin {
        Origin::HttpGet => ReplyView::Http {
            status: STATUS_OK,
            body: Some(ChatResponseView::History { messages: a }),
        },
        Origin::HttpPost => ReplyView::Http { status: STATUS_CREATED, body: None },
        _ => ReplyView::Rpc { response: ChatResponseView::History { messages: a } },
    }
}

/// The answer to a send of this origin.
pub open spec fn send_reply(origin: Origin) -> Option<ReplyView> {
    match origin {
        Origin::RemotePeer => Some(ReplyView::Rpc { response: ChatResponseView::Ack }),
        Origin::WebSocket => None,
        _ => Some(ReplyView::Http { status: STATUS_CREATED, body: None }),
    }
}

/// One step of the chat router: the next state and the effects of handling
/// `req` from `origin`, sent by node `source`.
pub open spec fn handle_spec(s: RelayView, req: ChatRequestView, origin: Origin, source: Seq<char>) -> (
    RelayView,
    EffectsView,
) {
    match req {
        ChatRequestView::HistoryQuery => (
            s,
            EffectsView {
                reply: Some(history_reply(origin, s.archive)),
                forward: None,
                push: None,
                note: None,
            },
        ),
        ChatRequestView::Send { target, message } => {
            let chat = counterparty_of(s.our, target, source);
            let author = author_of(s.our, target, source);
            let next = RelayView {
                archive: archive_append(s.archive, chat, MessageView { author, content: message }),
                ..s
            };
            let forward = if target != s.our {
                Some(ForwardView { target, request: req })
            } else {
                None
            };
            let (push, note) = if notifies(origin, s.policy) {
                match s.channel {
                    Some(c) => (
                        Some(
                            PushView {
                                channel_id: c,
                                update: NewMessageView { chat, author, content: message },
                            },
                        ),
                        None,
                    ),
                    None => (None, Some(RelayError::NoOpenChannel)),
                }
            } else {
                (None, None)
            };
            (next, EffectsView { reply: send_reply(origin), forward, push, note })
        },
    }
}

impl Relay {
    pub closed spec fn wf(&self) -> bool {
        self.archive.wf()
    }

    /// A relay for node `our`, with an empty archive and no open channel.
    pub fn new(our: String, policy: RelayPolicy) -> (r: Relay)
        ensures
            r.wf(),
            r@ == (RelayView {
                our: our@,
                archive: Map::empty(),
                channel: None,
                policy,
            }),
    {
        Relay { our, archive: Archive::new(), channel: None, policy }
    }

    /// This relay's node id.
    pub fn our(&self) -> (r: &String)
        ensures
            r@ == self@.our,
    {
        &self.our
    }

    /// The archive of conversations.
    pub fn archive(&self) -> (r: &Archive)
        requires
            self.wf(),
        ensures
            r.wf(),
            r@ == self@.archive,
    {
        &self.archive
    }

    /// The channel most recently opened by the local UI, if any.
    pub fn channel(&self) -> (r: Option<u32>)
        ensures
            r == self@.channel,
    {
        self.channel
    }

    /// The policy this relay was made with.
    pub fn policy(&self) -> (r: RelayPolicy)
        ensures
            r == self@.policy,
    {
        self.policy
    }

    /// Handles `request` from `origin`, sent by node `source`: archives a send
    /// under its counterparty, forwards a send addressed elsewhere, answers as
    /// the origin expects and pushes a live update where one is due.
    pub fn handle(&mut self, request: ChatRequest, origin: Origin, source: &String) -> (r: Effects)
        requires
            old(self).wf(),
        ensures
            final(self).wf(),
            (final(self)@, r@) == handle_spec(old(self)@, request@, origin, source@),
    {
        match request {
            ChatRequest::HistoryQuery => {
                let snapshot = self.archive.snapshot();
                let reply = match origin {
                    Origin::HttpGet => Reply::Http {
                        status: STATUS_OK,
                        body: Some(ChatResponse::History { messages: snapshot }),
                    },
                    Origin::HttpPost => Reply::Http { status: STATUS_CREATED, body: None },
                    _ => Reply::Rpc { response: ChatResponse::History { messages: snapshot } },
                };
                Effects { reply: Some(reply), forward: None, push: None, note: None }
            },
            ChatRequest::Send { target, message } => {
                let to_us = target == self.our;
                let (chat, author) = if to_us {
                    (source.clone(), source.clone())
                } else {
                    (target.clone(), self.our.clone())
                };
                let forward = if to_us {
                    None
                } else {
                    Some(
                        Forward {
                            target: target.clone(),
                            request: ChatRequest::Send { target: target.clone(), message: message.clone() },
                        },
                    )
                };
                let notify = match origin {
                    Origin::RemotePeer => true,
                    Origin::WebSocket => self.policy.notify_own_websocket_sends,
                    _ => false,
                };
                let (push, note) = if notify {
                    match self.channel {
                        Some(c) => (
                            Some(
                                Push {
                                    channel_id: c,
                                    update: NewMessage {
                                        chat: chat.clone(),
                                        author: author.clone(),
                                        content: message.clone(),
                                    },
                                },
                            ),
                            None,
                        ),
                        None => (None, Some(RelayError::NoOpenChannel)),
                    }
                } else {
                    (None, None)
                };
                let reply = match origin {
                    Origin::RemotePeer => Some(Reply::Rpc { response: ChatResponse::Ack }),
                    Origin::WebSocket => None,
                    _ => Some(Reply::Http { status: STATUS_CREATED, body: None }),
                };
                self.archive.append(&chat, ChatMessage::new(author, message));
                Effects { reply, forward, push, note }
            },
        }
    }
}

/// One step of the relay on a unit of work: the next state and the effects.
pub open spec fn step_spec(s: RelayView, e: InboundEvent) -> (RelayView, EffectsView) {
    match classify_spec(e) {
        ClassifiedView::Chat { request, origin, source } => handle_spec(s, request, origin, source),
        ClassifiedView::OpenChannel { channel_id } => (RelayView { channel: Some(channel_id), ..s }, no_effects()),
        ClassifiedView::Refuse { status, error } => (
            s,
            EffectsView {
                reply: Some(ReplyView::Http { status, body: None }),
                forward: None,
                push: None,
                note: Some(error),
            },
        ),
        ClassifiedView::Ignore { note } => (s, EffectsView { note, ..no_effects() }),
    }
}

impl Relay {
    /// Handles one unit of work delivered by the host.
    pub fn step(&mut self, event: InboundEvent) -> (r: Effects)
        requires
            old(self).wf(),
        ensures
            final(self).wf(),
            (final(self)@, r@) == step_spec(old(self)@, event),
    {
        match classify(event) {
            Classified::Chat { request, origin, source } => self.handle(request, origin, &source),
            Classified::OpenChannel { channel_id } => {
                self.channel = Some(channel_id);
                Effects { reply: None, forward: None, push: None, note: None }
            },
            Classified::Refuse { status, error } => Effects {
                reply: Some(Reply::Http { status, body: None }),
                forward: None,
                push: None,
                note: Some(error),
            },
            Classified::Ignore { note } => Effects { reply: None, forward: None, push: None, note },
        }
    }
}

/// How a forward to a peer ended.
#[derive(Clone, Copy, Debug, PartialEq, Eq, Structural)]
pub enum ForwardOutcome {
    /// The peer answered with an acknowledgement.
    Acknowledged,
    /// The peer answered with something other than an acknowledgement.
    OtherAnswer,
    /// The peer did not answer in time.
    TimedOut,
    /// The transport could not deliver the forward.
    TransportFailed,
}

pub open spec fn forward_note_spec(outcome: ForwardOutcome) -> Option<RelayError> {
    match outcome {
        ForwardOutcome::TimedOut => Some(RelayError::ForwardTimeout),
        ForwardOutcome::TransportFailed => Some(RelayError::ForwardTransportError),
        _ => None,
    }
}

/// What to log of a forward's outcome. A forward is tried once and never
/// retried, and its outcome changes no state: the send was archived when it
/// was handled.
pub fn forward_note(outcome: ForwardOutcome) -> (r: Option<RelayError>)
    ensures
        r == forward_note_spec(outcome),
{
    match outcome {
        ForwardOutcome::TimedOut => Some(RelayError::ForwardTimeout),
        ForwardOutcome::TransportFailed => Some(RelayError::ForwardTransportError),
        _ => None,
    }
}

} // verus!
