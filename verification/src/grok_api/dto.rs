//! The Grok provider's request and response bodies, as plain values.

use vstd::prelude::*;

verus! {

/// The body of a generation request; answers are never streamed.
#[derive(Debug, Clone)]
pub struct GrokGenerateTextRequest {
    pub messages: Vec<GrokMessage>,
    pub model: String,
    pub stream: bool,
}

impl GrokGenerateTextRequest {
    pub fn new(model: String, messages: Vec<GrokMessage>) -> (r: Self)
        ensures
            r.model == model,
            r.messages == messages,
            r.stream == false,
    {
        GrokGenerateTextRequest { messages, model, stream: false }
    }
}

/// One chat message, role and text.
#[derive(Debug, Clone)]
pub struct GrokMessage {
    pub role: String,
    pub content: String,
}

impl GrokMessage {
    pub fn new(role: String, content: String) -> (r: Self)
        ensures
            r.role == role,
            r.content == content,
    {
        GrokMessage { role, content }
    }
}

/// The body of a generation response.
#[derive(Debug, Clone)]
pub struct GrokGenerateTextResponse {
    pub choices: Vec<GrokChoiceResponse>,
}

#[derive(Debug, Clone)]
pub struct GrokChoiceResponse {
    pub message: GrokMessage,
}

impl GrokGenerateTextResponse {
    /// The first generated text of the response, if any came back.
    pub fn first_content(self) -> (r: Option<String>)
        ensures
            match r {
                Some(t) => self.choices@.len() > 0 && t == self.choices@[0].message.content,
                None => self.choices@.len() == 0,
            },
    {
        let mut choices = self.choices;
        if choices.len() == 0 {
            None
        } else {
            let first = choices.remove(0);
            Some(first.message.content)
        }
    }
}

} // verus!
