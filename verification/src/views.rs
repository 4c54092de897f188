//! View models the UI renders.
//!
//! A transcript message is rendered with a CSS class derived from its role and
//! its content compiled from markdown to HTML; the remaining structs carry the
//! values the page templates interpolate.  Template expansion itself is markup
//! work and stays outside this library.

use vstd::prelude::*;

use crate::text::{replace_escaped_newlines, with_line_breaks};
use crate::transcript::{Message, MessageRole, MessageStack};

verus! {

/// The HTML that compiling a markdown source text yields: a function of the
/// source alone, named rather than spelled out.
pub uninterp spec fn html_of(s: Seq<char>) -> Seq<char>;

/// Compiles markdown source to HTML.
///
/// Relies on `markdown::to_html`, whose result depends on the source text
/// alone.
#[verifier::external_body]
pub(crate) fn markdown_to_html(s: &str) -> (r: String)
    ensures
        r@ == html_of(s@),
{
    markdown::to_html(s)
}

/// The CSS class a message of the given role is rendered with.
pub open spec fn class_of_role(role: MessageRole) -> Seq<char> {
    match role {
        MessageRole::User => "user-message"@,
        MessageRole::Assistant => "assistant-message"@,
        MessageRole::System => "system-message"@,
    }
}

/// The short role name for a rendered class; classes other than the user and
/// assistant ones read as system.
pub open spec fn role_name_of_class(class: Seq<char>) -> Seq<char> {
    if class == "user-message"@ {
        "user"@
    } else if class == "assistant-message"@ {
        "assistant"@
    } else {
        "system"@
    }
}

/// The role a rendered class converts back to; classes other than the user and
/// assistant ones read as system.
pub open spec fn role_of_class(class: Seq<char>) -> MessageRole {
    if class == "user-message"@ {
        MessageRole::User
    } else if class == "assistant-message"@ {
        MessageRole::Assistant
    } else {
        MessageRole::System
    }
}

/// The role named `name`, if it names one.
pub open spec fn role_of_name(name: Seq<char>) -> Option<MessageRole> {
    if name == "user"@ {
        Some(MessageRole::User)
    } else if name == "assistant"@ {
        Some(MessageRole::Assistant)
    } else if name == "system"@ {
        Some(MessageRole::System)
    } else {
        None
    }
}

/// Parses a role name as submitted by the message form.
pub fn role_from_name(name: &str) -> (r: Option<MessageRole>)
    ensures
        r == role_of_name(name@),
{
    let owned = name.to_owned();
    if owned == "user".to_owned() {
        Some(MessageRole::User)
    } else if owned == "assistant".to_owned() {
        Some(MessageRole::Assistant)
    } else if owned == "system".to_owned() {
        Some(MessageRole::System)
    } else {
        None
    }
}

/// One transcript message prepared for the page: a CSS class for its role and
/// its content compiled to HTML.
#[derive(Clone, Debug)]
pub struct MessageRender {
    pub class: String,
    pub content: String,
}

impl MessageRender {
    /// The class is one a renderable message carries.
    pub open spec fn wf(&self) -> bool {
        ||| self.class@ == "user-message"@
        ||| self.class@ == "assistant-message"@
        ||| self.class@ == "system-message"@
    }

    /// Renders one transcript message: the class follows the role, the content
    /// is the message compiled to HTML with `\n` escapes turned into breaks.
    pub fn from_message(m: &Message) -> (r: MessageRender)
        ensures
            r.class@ == class_of_role(m.role),
            r.content@ == with_line_breaks(html_of(m@.content)),
            r.wf(),
    {
        let class: String = match m.role {
            MessageRole::User => "user-message".to_owned(),
            MessageRole::Assistant => "assistant-message".to_owned(),
            MessageRole::System => "system-message".to_owned(),
        };
        let content = markdown_to_html(m.content.as_str());
        let sani = replace_escaped_newlines(content.as_str());
        MessageRender { class, content: sani }
    }

    /// The short role name shown beside the message.
    pub fn role(&self) -> (r: &str)
        requires
            self.wf(),
        ensures
            r@ == role_name_of_class(self.class@),
    {
        proof {
            reveal_strlit("user-message");
            reveal_strlit("assistant-message");
            reveal_strlit("system-message");
        }
        if self.class == "user-message".to_owned() {
            "user"
        } else if self.class == "assistant-message".to_owned() {
            "assistant"
        } else {
            "system"
        }
    }

    /// The transcript message this render stands for; the content is taken
    /// back verbatim.
    pub fn to_message(&self) -> (m: Message)
        requires
            self.wf(),
        ensures
            m.role == role_of_class(self.class@),
            m@.content == self.content@,
    {
        proof {
            reveal_strlit("user-message");
            reveal_strlit("assistant-message");
            reveal_strlit("system-message");
        }
        if self.class == "user-message".to_owned() {
            Message::new_user(self.content.as_str())
        } else if self.class == "assistant-message".to_owned() {
            Message::new_assistant(self.content.as_str())
        } else {
            Message::new_system(self.content.as_str())
        }
    }
}

/// A whole transcript prepared for the chat pane.
#[derive(Debug)]
pub struct ChatHistory {
    pub agent_id: String,
    pub messages: Vec<MessageRender>,
}

impl ChatHistory {
    /// Renders every message of a transcript, in order.
    pub fn from_stack(agent_id: String, cache: &MessageStack) -> (h: ChatHistory)
        ensures
            h.agent_id@ == agent_id@,
            h.messages@.len() == cache@.len(),
            forall|i: int|
                0 <= i < cache@.len() ==> {
                    &&& (#[trigger] h.messages@[i]).class@ == class_of_role(cache@[i].role)
                    &&& h.messages@[i].content@ == with_line_breaks(html_of(cache@[i].content))
                    &&& h.messages@[i].wf()
                },
    {
        let n = cache.len();
        let mut messages: Vec<MessageRender> = Vec::new();
        let mut i: usize = 0;
        while i < n
            invariant
                n == cache@.len(),
                i <= n,
                messages@.len() == i,
                forall|j: int|
                    0 <= j < i ==> {
                        &&& (#[trigger] messages@[j]).class@ == class_of_role(cache@[j].role)
                        &&& messages@[j].content@ == with_line_breaks(html_of(cache@[j].content))
                        &&& messages@[j].wf()
                    },
            decreases n - i,
        {
            let m = cache.get(i);
            match m {
                Some(m) => {
                    messages.push(MessageRender::from_message(&m));
                },
                None => {
                    proof {
                        assert(false);
                    }
                },
            }
            i = i + 1;
        }
        ChatHistory { agent_id, messages }
    }
}

/// The landing page.
#[derive(Debug)]
pub struct IndexTemplate;

/// The page shell: the agent list when known, and the path and query to load
/// when a full page is served for a partial route.
#[derive(Debug)]
pub struct LayoutTemplate {
    pub agent_names: Option<Vec<String>>,
    pub path_and_params: Option<(String, String)>,
}

/// One environment and the agents it manages.
#[derive(Debug)]
pub struct EnvView {
    pub id: String,
    pub agent_names: Vec<String>,
}

/// One agent's pane.
#[derive(Debug)]
pub struct AgentView {
    pub agent_id: String,
}

/// The form for appending a message to an agent's transcript.
#[derive(Debug)]
pub struct AddMessageForm {
    pub agent_id: String,
}

/// A submitted append: the role's name and the message text.
#[derive(Clone, Debug)]
pub struct AddMessage {
    pub role: String,
    pub content: String,
}

} // verus!
