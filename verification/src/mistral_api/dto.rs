//! The Mistral provider's request and response bodies, as plain values.

use vstd::prelude::*;
use crate::common::TEXT_MODIFY_PROMPT;

verus! {

/// The body of a generation request, always against the small model.
#[derive(Debug, Clone)]
pub struct MistralGenerateTextRequest {
    pub model: String,
    pub messages: Vec<MistralMessage>,
}

impl MistralGenerateTextRequest {
    pub fn new(messages: Vec<MistralMessage>) -> (r: Self)
        ensures
            r.model@ == "mistral-small-latest"@,
            r.messages == messages,
    {
        MistralGenerateTextRequest {
            model: String::from_str("mistral-small-latest"),
            messages,
        }
    }
}

/// One chat message, role and text.
#[derive(Debug, Clone)]
pub struct MistralMessage {
    pub role: String,
    pub content: String,
}

impl MistralMessage {
    /// A user message carrying the text to rephrase.
    pub fn new(content_text: String) -> (r: Self)
        ensures
            r.role@ == "user"@,
            r.content == content_text,
    {
        MistralMessage { role: String::from_str("user"), content: content_text }
    }

    /// The fixed system prompt that asks for a rephrasing.
    pub fn new_system_message() -> (r: Self)
        ensures
            r.role@ == "system"@,
            r.content@ == TEXT_MODIFY_PROMPT@,
    {
        MistralMessage {
            role: String::from_str("system"),
            content: String::from_str(TEXT_MODIFY_PROMPT),
        }
    }
}

/// The body of a generation response.
#[derive(Debug, Clone)]
pub struct MistralGenerateTextResponse {
    pub choices: Vec<MistralChoiceResponse>,
}

#[derive(Debug, Clone)]
pub struct MistralChoiceResponse {
    pub message: MistralMessageResponse,
}

#[derive(Debug, Clone)]
pub struct MistralMessageResponse {
    pub content: String,
}

impl MistralGenerateTextResponse {
    /// The first generated text of the response, if any came back.
    pub fn first_content(self) -> (r: Option<String>)
        ensures
            match r {
                Some(t) => self.choices@.len() > 0 && t == self.choices@[0].message.content,
                None => self.choices@.len() == 0,
            },
    {
        let mut choices = self.choices;
        if choices.len() == 0 {
            None
        } else {
            let first = choices.remove(0);
            Some(first.message.content)
        }
    }
}

} // verus!
