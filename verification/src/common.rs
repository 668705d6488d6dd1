//! Identifiers of the text-generation providers, and the plain model of an
//! inbound chat update that the workflow engine reads.

use vstd::prelude::*;

verus! {

/// The system prompt handed to every provider together with the text to
/// rephrase.
pub const TEXT_MODIFY_PROMPT: &'static str = "Перефразируй следующее сообщение, сохранив его смысл, в дерзком неформальном стиле.";

/// One of the interchangeable text-rephrasing providers.
#[derive(Debug, Clone, Copy, PartialEq, Eq, Structural)]
pub enum Model {
    Gigachat,
    Mistral,
    Grok,
}

impl Model {
    /// The provider's display name.
    pub fn name(&self) -> (r: String)
        ensures
            r@ == self.spec_name(),
    {
        match self {
            Model::Gigachat => String::from_str("Gigachat"),
            Model::Mistral => String::from_str("Mistral"),
            Model::Grok => String::from_str("Grok"),
        }
    }

    pub open spec fn spec_name(self) -> Seq<char> {
        match self {
            Model::Gigachat => "Gigachat"@,
            Model::Mistral => "Mistral"@,
            Model::Grok => "Grok"@,
        }
    }
}

/// What an inbound message carries: text, a sticker (by its file id), or
/// something the bot does not act on.
#[derive(Debug, Clone)]
pub enum MessageContent {
    Text(String),
    Sticker(String),
    Other,
}

/// The message that an inbound reply points at, reduced to what the logic
/// reads from it.
#[derive(Debug, Clone)]
pub struct RepliedTo {
    pub text: Option<String>,
}

/// An inbound chat update, reduced to the plain values the workflow reads:
/// the sender (absent for channel posts), the chat, the content, and the
/// message this one replies to, if any.
#[derive(Debug, Clone)]
pub struct MessageInfo {
    pub from_user: Option<u64>,
    pub chat_id: i64,
    pub content: MessageContent,
    pub reply_to: Option<RepliedTo>,
}

/// Whether two contents carry the same kind and the same characters.
pub open spec fn content_eqv(a: MessageContent, b: MessageContent) -> bool {
    match (a, b) {
        (MessageContent::Text(x), MessageContent::Text(y)) => x@ == y@,
        (MessageContent::Sticker(x), MessageContent::Sticker(y)) => x@ == y@,
        (MessageContent::Other, MessageContent::Other) => true,
        _ => false,
    }
}

/// Whether two messages carry the same plain values.
pub open spec fn msg_eqv(a: MessageInfo, b: MessageInfo) -> bool {
    &&& a.from_user == b.from_user
    &&& a.chat_id == b.chat_id
    &&& content_eqv(a.content, b.content)
    &&& match (a.reply_to, b.reply_to) {
        (None, None) => true,
        (Some(x), Some(y)) => match (x.text, y.text) {
            (None, None) => true,
            (Some(s), Some(t)) => s@ == t@,
            _ => false,
        },
        _ => false,
    }
}

impl MessageInfo {
    /// A copy carrying the same plain values.
    pub fn duplicate(&self) -> (r: MessageInfo)
        ensures
            msg_eqv(r, *self),
    {
        let content = match &self.content {
            MessageContent::Text(t) => MessageContent::Text(String::from_str(t.as_str())),
            MessageContent::Sticker(f) => MessageContent::Sticker(String::from_str(f.as_str())),
            MessageContent::Other => MessageContent::Other,
        };
        let reply_to = match &self.reply_to {
            None => None,
            Some(r) => Some(
                RepliedTo {
                    text: match &r.text {
                        None => None,
                        Some(t) => Some(String::from_str(t.as_str())),
                    },
                },
            ),
        };
        MessageInfo { from_user: self.from_user, chat_id: self.chat_id, content, reply_to }
    }
}

} // verus!
