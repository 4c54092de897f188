//! Decoding websocket frames into requests, and the view models sent back.
//!
//! A frame carries a JSON object with an `HEADERS` object naming the element
//! that triggered it and, for a prompt, a `user_input` field.  The JSON value
//! itself is opaque (see [`crate::json`]); everything decided from the strings
//! read out of it is verified here.  The socket itself, and the engine's
//! completion stream, live in the process shell: the shell feeds each received
//! frame's text and each streamed token to this module and sends back what it
//! returns.

use vstd::prelude::*;

use crate::json::{json_get, json_to_string, parse_json};
use crate::text::{
    chars_of, string_from_chars, strip_quotes, strip_suffix_of, trim_newlines, trimmed_newlines,
};
use crate::views::{html_of, markdown_to_html};

verus! {

/// Why a frame could not be decoded into a request.
#[derive(Clone, Copy, PartialEq, Eq, Structural, Debug)]
pub enum WsError {
    /// The frame's text is not valid JSON.
    InvalidJson,
    /// The frame has no `HEADERS` object.
    MissingHeaders,
    /// The headers name no trigger.
    MissingTrigger,
    /// The trigger names no agent form.
    UnrecognizedTrigger,
    /// The frame has no `user_input` field.
    NoUserInputField,
    /// The request is not the kind this conversion accepts.
    WrongRequestType,
}

/// What a frame asks for.
#[derive(Clone, PartialEq, Debug)]
pub enum WsRequest {
    PromptAgent { user_input: String },
    Empty,
}

/// The agent a frame's trigger points at: the trigger must be the user input
/// form, and its name must end in `-agent-form`; what precedes that suffix is
/// the agent id.
pub open spec fn trigger_agent_id(
    hx_trigger: Seq<char>,
    hx_trigger_name: Seq<char>,
) -> Option<Seq<char>> {
    if hx_trigger == "user-input-form"@ && hx_trigger_name.len() >= "-agent-form"@.len()
        && hx_trigger_name.skip(hx_trigger_name.len() - "-agent-form"@.len()) == "-agent-form"@ {
        Some(hx_trigger_name.take(hx_trigger_name.len() - "-agent-form"@.len()))
    } else {
        None
    }
}

/// The agent a frame's trigger points at.
#[derive(Clone, Debug)]
pub struct WsHxTrigger {
    pub agent_id: String,
}

impl WsHxTrigger {
    /// Reads the agent id out of the trigger headers, exactly when
    /// [`trigger_agent_id`] names one.
    pub fn try_from_trigger_and_name(hx_trigger: String, hx_trigger_name: String) -> (r: Option<
        WsHxTrigger,
    >)
        ensures
            match r {
                Some(t) => trigger_agent_id(hx_trigger@, hx_trigger_name@) == Some(t.agent_id@),
                None => trigger_agent_id(hx_trigger@, hx_trigger_name@) is None,
            },
    {
        if hx_trigger == "user-input-form".to_owned() {
            match strip_suffix_of(hx_trigger_name.as_str(), "-agent-form") {
                Some(prefix) => {
                    proof {
                        let name = hx_trigger_name@;
                        let suffix = "-agent-form"@;
                        assert(name.skip(name.len() - suffix.len()) =~= suffix);
                        assert(name.take(name.len() - suffix.len()) =~= prefix@);
                    }
                    Some(WsHxTrigger { agent_id: prefix.to_owned() })
                },
                None => None,
            }
        } else {
            None
        }
    }
}

impl WsRequest {
    /// Classifies a parsed frame: a value carrying `user_input` is a prompt,
    /// whose text is the field serialized with its quote characters dropped.
    pub fn try_from_json(value: &serde_json::Value) -> (r: Result<WsRequest, WsError>)
        ensures
            match r {
                Ok(req) => req is PromptAgent,
                Err(e) => e == WsError::NoUserInputField,
            },
    {
        match json_get(value, "user_input") {
            Some(field) => {
                let raw = json_to_string(field);
                Ok(WsRequest::PromptAgent { user_input: strip_quotes(raw.as_str()) })
            },
            None => Err(WsError::NoUserInputField),
        }
    }
}

/// A decoded frame: the request and the trigger that carried it.
#[derive(Debug)]
pub struct WsRequestHandler {
    pub req: WsRequest,
    pub trigger: WsHxTrigger,
}

impl WsRequestHandler {
    /// Decodes one text frame: parses the JSON, reads `HX-Trigger` and
    /// `HX-Trigger-Name` out of `HEADERS` (serialized values with their quote
    /// characters dropped), resolves the agent the trigger points at, and
    /// classifies the request.  Each missing piece is its own error.
    pub fn try_from_text(text: &str) -> (r: Result<WsRequestHandler, WsError>)
        ensures
            r matches Ok(h) ==> h.req is PromptAgent,
    {
        let value = match parse_json(text) {
            Some(v) => v,
            None => {
                return Err(WsError::InvalidJson);
            },
        };
        let hx_trigger: String;
        let hx_trigger_name: String;
        match json_get(&value, "HEADERS") {
            Some(headers) => {
                match json_get(headers, "HX-Trigger") {
                    Some(t) => {
                        let raw = json_to_string(t);
                        hx_trigger = strip_quotes(raw.as_str());
                    },
                    None => {
                        return Err(WsError::MissingTrigger);
                    },
                }
                match json_get(headers, "HX-Trigger-Name") {
                    Some(t) => {
                        let raw = json_to_string(t);
                        hx_trigger_name = strip_quotes(raw.as_str());
                    },
                    None => {
                        return Err(WsError::MissingTrigger);
                    },
                }
            },
            None => {
                return Err(WsError::MissingHeaders);
            },
        }
        let trigger = match WsHxTrigger::try_from_trigger_and_name(hx_trigger, hx_trigger_name) {
            Some(t) => t,
            None => {
                return Err(WsError::UnrecognizedTrigger);
            },
        };
        let req = match WsRequest::try_from_json(&value) {
            Ok(req) => req,
            Err(e) => {
                return Err(e);
            },
        };
        Ok(WsRequestHandler { req, trigger })
    }
}

/// A user's own prompt echoed back to the page, compiled to HTML.
#[derive(Debug)]
pub struct UserMessage {
    pub content: String,
}

impl UserMessage {
    /// Renders the prompt a request carries.  The markdown compiler appends a
    /// newline, so the rendered HTML is trimmed of newlines at both ends; a
    /// request that carries no prompt is refused.
    pub fn try_from(req: &WsRequest) -> (r: Result<UserMessage, WsError>)
        ensures
            match *req {
                WsRequest::PromptAgent { ref user_input } => r matches Ok(m) && m.content@
                    == trimmed_newlines(html_of(user_input@)),
                WsRequest::Empty => r == Err::<UserMessage, WsError>(WsError::WrongRequestType),
            },
    {
        match req {
            WsRequest::PromptAgent { user_input } => {
                let html = markdown_to_html(user_input.as_str());
                Ok(UserMessage { content: trim_newlines(html.as_str()) })
            },
            WsRequest::Empty => Err(WsError::WrongRequestType),
        }
    }
}

/// The assistant's reply so far, compiled to HTML.
#[derive(Debug)]
pub struct AssistantMessage {
    pub content: String,
}

impl AssistantMessage {
    /// Renders the reply text accumulated so far.
    pub fn from(text: &str) -> (m: AssistantMessage)
        ensures
            m.content@ == html_of(text@),
    {
        AssistantMessage { content: markdown_to_html(text) }
    }
}

/// The assistant reply under construction while a completion streams in: each
/// token extends the text, and the current state renders as an
/// [`AssistantMessage`].
pub struct StreamAccumulator {
    chars: Vec<char>,
}

impl StreamAccumulator {
    /// The reply text accumulated so far.
    pub closed spec fn text(&self) -> Seq<char> {
        self.chars@
    }

    pub fn new() -> (a: StreamAccumulator)
        ensures
            a.text() == Seq::<char>::empty(),
    {
        let a = StreamAccumulator { chars: Vec::new() };
        proof {
            assert(a.text() =~= Seq::<char>::empty());
        }
        a
    }

    /// Appends one streamed token to the reply.
    pub fn push_token(&mut self, token: &str)
        ensures
            final(self).text() == old(self).text() + token@,
    {
        let mut extra = chars_of(token);
        self.chars.append(&mut extra);
    }

    /// The whole reply so far, rendered.
    pub fn current_message(&self) -> (m: AssistantMessage)
        ensures
            m.content@ == html_of(self.text()),
    {
        let text = string_from_chars(&self.chars);
        AssistantMessage::from(text.as_str())
    }
}

} // verus!
