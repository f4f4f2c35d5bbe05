//! The units the relay exchanges: chat requests and responses, the live update
//! pushed to the local UI, and the relay's error taxonomy.
use vstd::prelude::*;
use crate::archive::{Archive, ArchiveView};

verus! {

/// A chat request, as exchanged between peer relays and sent by the local UI.
#[derive(Clone, Debug)]
pub enum ChatRequest {
    Send { target: String, message: String },
    HistoryQuery,
}

pub enum ChatRequestView {
    Send { target: Seq<char>, message: Seq<char> },
    HistoryQuery,
}

impl View for ChatRequest {
    type V = ChatRequestView;

    open spec fn view(&self) -> ChatRequestView {
        match self {
            ChatRequest::Send { target, message } => ChatRequestView::Send {
                target: target@,
                message: message@,
            },
            ChatRequest::HistoryQuery => ChatRequestView::HistoryQuery,
        }
    }
}

/// The answer to a chat request.
#[derive(Clone, Debug)]
pub enum ChatResponse {
    Ack,
    History { messages: Archive },
}

pub enum ChatResponseView {
    Ack,
    History { messages: ArchiveView },
}

impl View for ChatResponse {
    type V = ChatResponseView;

    open spec fn view(&self) -> ChatResponseView {
        match self {
            ChatResponse::Ack => ChatResponseView::Ack,
            ChatResponse::History { messages } => ChatResponseView::History { messages: messages@ },
        }
    }
}

/// The live update pushed to the local UI: a new message in the conversation
/// with `chat`.
#[derive(Clone, Debug)]
pub struct NewMessage {
    pub chat: String,
    pub author: String,
    pub content: String,
}

pub struct NewMessageView {
    pub chat: Seq<char>,
    pub author: Seq<char>,
    pub content: Seq<char>,
}

impl View for NewMessage {
    type V = NewMessageView;

    open spec fn view(&self) -> NewMessageView {
        NewMessageView { chat: self.chat@, author: self.author@, content: self.content@ }
    }
}

/// Why a unit of work led to less than a full answer. None of these ends the
/// relay: each is reported for the local log and the relay goes on.
#[derive(Clone, Copy, Debug, PartialEq, Eq, Structural)]
pub enum RelayError {
    /// A payload that does not decode as a chat request.
    MalformedPayload,
    /// A unit that should carry a payload and carries none.
    MissingPayload,
    /// An HTTP request whose method the relay does not serve.
    UnsupportedMethod,
    /// A forward that the target did not answer in time.
    ForwardTimeout,
    /// A forward that the transport could not deliver.
    ForwardTransportError,
    /// A live update with no open channel to carry it.
    NoOpenChannel,
}

} // verus!
