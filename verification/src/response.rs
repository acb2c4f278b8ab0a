use vstd::prelude::*;

verus! {

/// Payload of a channel-message response. Only `content` is ever populated
/// by this core; the remaining fields are reserved placeholders the builder
/// keeps absent.
#[derive(Clone, Debug, PartialEq, Eq)]
pub struct CallbackData {
    pub content: Option<String>,
    pub tts: Option<bool>,
    pub flags: Option<u64>,
}

/// The synchronous callback response the platform expects: a pong for its
/// health check, or a message shown to the invoking user.
#[derive(Clone, Debug, PartialEq, Eq)]
pub enum InteractionResponse {
    Pong,
    ChannelMessageWithSource(CallbackData),
}

/// Mathematical image of `CallbackData`.
pub struct CallbackView {
    pub content: Option<Seq<char>>,
    pub tts: Option<bool>,
    pub flags: Option<u64>,
}

/// Mathematical image of `InteractionResponse`.
pub enum ResponseView {
    Pong,
    Message(CallbackView),
}

impl View for CallbackData {
    type V = CallbackView;

    open spec fn view(&self) -> CallbackView {
        CallbackView {
            content: match self.content {
                Some(ref c) => Some(c@),
                None => None,
            },
            tts: self.tts,
            flags: self.flags,
        }
    }
}

impl View for InteractionResponse {
    type V = ResponseView;

    open spec fn view(&self) -> ResponseView {
        match self {
            InteractionResponse::Pong => ResponseView::Pong,
            InteractionResponse::ChannelMessageWithSource(d) => ResponseView::Message(d@),
        }
    }
}

/// A message response carrying `content` and nothing else.
pub open spec fn message_view(content: Seq<char>) -> ResponseView {
    ResponseView::Message(CallbackView { content: Some(content), tts: None, flags: None })
}

/// Build the health-check reply.
pub fn pong() -> (r: InteractionResponse)
    ensures
        r@ == ResponseView::Pong,
{
    InteractionResponse::Pong
}

/// Build a message response: `content` set, every reserved field absent.
pub fn channel_message(content: String) -> (r: InteractionResponse)
    ensures
        r@ == message_view(content@),
{
    InteractionResponse::ChannelMessageWithSource(CallbackData { content: Some(content), tts: None, flags: None })
}

} // verus!
