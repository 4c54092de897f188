//! Messages and per-agent transcripts.
//!
//! A transcript is an ordered sequence of immutable messages.  The engine owns
//! the authoritative transcript of each agent; this library keeps independent
//! copies, so every accessor below hands out owned values, never references
//! into shared state.

use vstd::prelude::*;

verus! {

/// Role of one message in a transcript.
#[derive(Clone, Copy, PartialEq, Eq, Structural, Debug)]
pub enum MessageRole {
    User,
    Assistant,
    System,
}

/// One transcript entry.  Immutable once constructed: edits replace a message
/// wholesale instead of mutating it in place.
#[derive(Clone, Debug)]
pub struct Message {
    pub role: MessageRole,
    pub content: String,
}

/// Mathematical value of a [`Message`].
pub struct MessageView {
    pub role: MessageRole,
    pub content: Seq<char>,
}

impl View for Message {
    type V = MessageView;

    open spec fn view(&self) -> MessageView {
        MessageView { role: self.role, content: self.content@ }
    }
}

impl Message {
    pub fn new_user(content: &str) -> (m: Message)
        ensures
            m.role == MessageRole::User,
            m@.content == content@,
    {
        Message { role: MessageRole::User, content: content.to_owned() }
    }

    pub fn new_assistant(content: &str) -> (m: Message)
        ensures
            m.role == MessageRole::Assistant,
            m@.content == content@,
    {
        Message { role: MessageRole::Assistant, content: content.to_owned() }
    }

    pub fn new_system(content: &str) -> (m: Message)
        ensures
            m.role == MessageRole::System,
            m@.content == content@,
    {
        Message { role: MessageRole::System, content: content.to_owned() }
    }

    /// An owned copy with the same role and content.
    pub fn duplicate(&self) -> (m: Message)
        ensures
            m@ == self@,
    {
        Message { role: self.role, content: self.content.clone() }
    }
}

/// An agent's transcript: messages in insertion order.
#[derive(Clone, Debug)]
pub struct MessageStack {
    messages: Vec<Message>,
}

impl View for MessageStack {
    type V = Seq<MessageView>;

    closed spec fn view(&self) -> Seq<MessageView> {
        self.messages@.map_values(|m: Message| m@)
    }
}

impl MessageStack {
    pub fn new() -> (s: MessageStack)
        ensures
            s@ == Seq::<MessageView>::empty(),
    {
        let s = MessageStack { messages: Vec::new() };
        proof {
            assert(s@ =~= Seq::<MessageView>::empty());
        }
        s
    }

    pub fn len(&self) -> (n: usize)
        ensures
            n == self@.len(),
    {
        self.messages.len()
    }

    pub fn push(&mut self, message: Message)
        ensures
            final(self)@ == old(self)@.push(message@),
    {
        self.messages.push(message);
        proof {
            assert(final(self)@ =~= old(self)@.push(message@));
        }
    }

    /// The message at `idx`, as an owned copy.
    pub fn get(&self, idx: usize) -> (m: Option<Message>)
        ensures
            match m {
                Some(m) => idx < self@.len() && m@ == self@[idx as int],
                None => idx >= self@.len(),
            },
    {
        if idx < self.messages.len() {
            Some(self.messages[idx].duplicate())
        } else {
            None
        }
    }

    /// Replaces the message at `idx`.
    pub fn set(&mut self, idx: usize, message: Message)
        requires
            idx < old(self)@.len(),
        ensures
            final(self)@ == old(self)@.update(idx as int, message@),
    {
        self.messages[idx] = message;
        proof {
            assert(final(self)@ =~= old(self)@.update(idx as int, message@));
        }
    }

    /// Removes the message at `idx`, shifting everything after it left.
    pub fn remove_at(&mut self, idx: usize)
        requires
            idx < old(self)@.len(),
        ensures
            final(self)@ == old(self)@.remove(idx as int),
    {
        self.messages.remove(idx);
        proof {
            assert(final(self)@ =~= old(self)@.remove(idx as int));
        }
    }

    /// An owned copy of the whole transcript.
    pub fn duplicate(&self) -> (s: MessageStack)
        ensures
            s@ == self@,
    {
        let mut messages: Vec<Message> = Vec::new();
        let n = self.messages.len();
        for i in 0..n
            invariant
                n == self.messages.len(),
                messages@.len() == i,
                forall|j: int| 0 <= j < i ==> messages@[j]@ == self@[j],
        {
            messages.push(self.messages[i].duplicate());
        }
        let s = MessageStack { messages };
        proof {
            assert(s@ =~= self@);
        }
        s
    }
}

} // verus!
