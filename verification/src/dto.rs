//! The GigaChat provider's request and response bodies, as plain values. The
//! shell serializes them on the wire; the logic here only builds requests and
//! reads results out of responses.

use vstd::prelude::*;
use crate::common::TEXT_MODIFY_PROMPT;

verus! {

/// The body of a token request.
#[derive(Debug, Clone)]
pub struct GigaChatAuthRequest {
    pub scope: String,
}

/// The answer to a token request: the token and when it expires, as
/// milliseconds since the epoch.
#[derive(Debug, Clone)]
pub struct GigaChatAuthResponse {
    pub access_token: String,
    pub expires_at: u64,
}

/// Whether a token with this expiry moment is too old to use at `now_ms`,
/// with a three-second safety margin.
pub fn token_expired(expires_at_ms: u64, now_ms: u64) -> (r: bool)
    requires
        now_ms + 3000 <= u64::MAX,
    ensures
        r == (expires_at_ms <= now_ms + 3000),
{
    expires_at_ms <= now_ms + 3000
}

/// The body of a generation request.
#[derive(Debug, Clone)]
pub struct GigaChatGenerateTextRequest {
    pub model: String,
    pub messages: Vec<GigaChatMessage>,
}

/// Who speaks in a chat message.
#[derive(Debug, Clone, Copy, PartialEq, Eq, Structural)]
pub enum GigaChatRole {
    System,
    User,
    Assistant,
}

impl From<String> for GigaChatRole {
    /// The role a wire word names; anything unknown speaks as the user.
    fn from(value: String) -> (r: Self) {
        if crate::utils::str_eq(value.as_str(), "system") {
            GigaChatRole::System
        } else if crate::utils::str_eq(value.as_str(), "assistant") {
            GigaChatRole::Assistant
        } else {
            GigaChatRole::User
        }
    }
}

impl vstd::std_specs::convert::FromSpecImpl<String> for GigaChatRole {
    open spec fn obeys_from_spec() -> bool {
        true
    }

    open spec fn from_spec(value: String) -> Self {
        if value@ == "system"@ {
            GigaChatRole::System
        } else if value@ == "assistant"@ {
            GigaChatRole::Assistant
        } else {
            GigaChatRole::User
        }
    }
}

/// One chat message of a generation request.
#[derive(Debug, Clone)]
pub struct GigaChatMessage {
    pub role: GigaChatRole,
    pub content: String,
}

impl GigaChatMessage {
    pub fn new(role: GigaChatRole, content: String) -> (r: Self)
        ensures
            r.role == role,
            r.content == content,
    {
        GigaChatMessage { role, content }
    }

    /// The fixed system prompt that asks for a rephrasing.
    pub fn new_system_message() -> (r: Self)
        ensures
            r.role == GigaChatRole::System,
            r.content@ == TEXT_MODIFY_PROMPT@,
    {
        GigaChatMessage { role: GigaChatRole::System, content: String::from_str(TEXT_MODIFY_PROMPT) }
    }
}

/// The body of a generation response.
#[derive(Debug, Clone)]
pub struct GigaChatGenerateTextResponse {
    pub choices: Vec<GigaChatChoice>,
}

#[derive(Debug, Clone)]
pub struct GigaChatChoice {
    pub message: GigaChatChoiceMessage,
}

#[derive(Debug, Clone)]
pub struct GigaChatChoiceMessage {
    pub content: String,
}

impl GigaChatGenerateTextResponse {
    /// The first generated text of the response, if any came back.
    pub fn first_content(self) -> (r: Option<String>)
        ensures
            match r {
                Some(t) => self.choices@.len() > 0 && t == self.choices@[0].message.content,
                None => self.choices@.len() == 0,
            },
    {
        let mut choices = self.choices;
        if choices.len() == 0 {
            None
        } else {
            let first = choices.remove(0);
            Some(first.message.content)
        }
    }
}

} // verus!
