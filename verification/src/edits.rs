//! Edits to a transcript, and their application.
//!
//! An edit's index is interpreted against the transcript at application time,
//! not at submission time, so queued edits must be applied strictly in
//! submission order.  An out-of-range index is expected under races with
//! concurrent transcript growth or shrinkage: applying such an edit leaves the
//! transcript unchanged and reports it, and never panics.

use vstd::prelude::*;

use crate::transcript::{Message, MessageStack, MessageView};

verus! {

/// Why an edit could not be applied.  Both cases are expected races, not
/// faults: callers surface them as "no matching message" or drop them.
#[derive(Clone, Copy, PartialEq, Eq, Structural, Debug)]
pub enum EditError {
    /// The edit or read targets an agent id with no known transcript.
    AgentNotFound,
    /// The edit references a position beyond the current transcript length.
    IndexOutOfRange,
}

/// One mutation of a transcript.
#[derive(Clone, Debug)]
pub enum StackEdit {
    EditMessageInCache { idx: usize, new_text: String },
    RemoveMessageInCache { idx: usize },
    PushMessageToCache { message: Message },
}

/// Mathematical value of a [`StackEdit`].
pub enum StackEditView {
    Edit { idx: int, new_text: Seq<char> },
    Remove { idx: int },
    Push { message: MessageView },
}

impl View for StackEdit {
    type V = StackEditView;

    open spec fn view(&self) -> StackEditView {
        match self {
            StackEdit::EditMessageInCache { idx, new_text } => StackEditView::Edit {
                idx: *idx as int,
                new_text: new_text@,
            },
            StackEdit::RemoveMessageInCache { idx } => StackEditView::Remove { idx: *idx as int },
            StackEdit::PushMessageToCache { message } => StackEditView::Push { message: message@ },
        }
    }
}

/// Whether applying `e` to a transcript of value `t` succeeds: appends always
/// do, in-place edits and removals only when the index is in range.
pub open spec fn edit_in_range(t: Seq<MessageView>, e: StackEditView) -> bool {
    match e {
        StackEditView::Edit { idx, .. } => 0 <= idx < t.len(),
        StackEditView::Remove { idx } => 0 <= idx < t.len(),
        StackEditView::Push { .. } => true,
    }
}

/// The transcript after applying `e` to `t`.  An in-place edit replaces the
/// message's content and keeps its role; an out-of-range edit leaves `t`
/// unchanged.
pub open spec fn apply_edit(t: Seq<MessageView>, e: StackEditView) -> Seq<MessageView> {
    match e {
        StackEditView::Edit { idx, new_text } => {
            if 0 <= idx < t.len() {
                t.update(idx, MessageView { role: t[idx].role, content: new_text })
            } else {
                t
            }
        },
        StackEditView::Remove { idx } => {
            if 0 <= idx < t.len() {
                t.remove(idx)
            } else {
                t
            }
        },
        StackEditView::Push { message } => t.push(message),
    }
}

impl StackEdit {
    /// An owned copy describing the same mutation.
    pub fn duplicate(&self) -> (e: StackEdit)
        ensures
            e@ == self@,
    {
        match self {
            StackEdit::EditMessageInCache { idx, new_text } => StackEdit::EditMessageInCache {
                idx: *idx,
                new_text: new_text.clone(),
            },
            StackEdit::RemoveMessageInCache { idx } => StackEdit::RemoveMessageInCache {
                idx: *idx,
            },
            StackEdit::PushMessageToCache { message } => StackEdit::PushMessageToCache {
                message: message.duplicate(),
            },
        }
    }

    /// Applies this edit to `cache`.  The transcript always becomes
    /// `apply_edit` of its old value: in particular an out-of-range index
    /// leaves it untouched and is the one reported error.
    pub fn make_edit(self, cache: &mut MessageStack) -> (r: Result<(), EditError>)
        ensures
            final(cache)@ == apply_edit(old(cache)@, self@),
            r == if edit_in_range(old(cache)@, self@) {
                Result::<(), EditError>::Ok(())
            } else {
                Result::<(), EditError>::Err(EditError::IndexOutOfRange)
            },
    {
        match self {
            StackEdit::PushMessageToCache { message } => {
                cache.push(message);
                Ok(())
            },
            StackEdit::EditMessageInCache { idx, new_text } => {
                cache.replace_content(idx, new_text)
            },
            StackEdit::RemoveMessageInCache { idx } => cache.remove(idx),
        }
    }
}

/// A queued, not-yet-authoritatively-applied edit, tagged with the agent whose
/// transcript it targets.
#[derive(Clone, Debug)]
pub struct CacheEdit {
    pub agent_id: String,
    pub edit: StackEdit,
}

/// Mathematical value of a [`CacheEdit`].
pub struct CacheEditView {
    pub agent_id: Seq<char>,
    pub edit: StackEditView,
}

impl View for CacheEdit {
    type V = CacheEditView;

    open spec fn view(&self) -> CacheEditView {
        CacheEditView { agent_id: self.agent_id@, edit: self.edit@ }
    }
}

impl CacheEdit {
    /// An owned copy targeting the same agent with the same mutation.
    pub fn duplicate(&self) -> (e: CacheEdit)
        ensures
            e@ == self@,
    {
        CacheEdit { agent_id: self.agent_id.clone(), edit: self.edit.duplicate() }
    }
}

impl MessageStack {
    /// Replaces the content of the message at `idx`, keeping its role.
    pub fn replace_content(&mut self, idx: usize, new_text: String) -> (r: Result<
        (),
        EditError,
    >)
        ensures
            final(self)@ == apply_edit(
                old(self)@,
                StackEditView::Edit { idx: idx as int, new_text: new_text@ },
            ),
            r == if idx < old(self)@.len() {
                Result::<(), EditError>::Ok(())
            } else {
                Result::<(), EditError>::Err(EditError::IndexOutOfRange)
            },
    {
        match self.get(idx) {
            Some(m) => {
                let updated = Message { role: m.role, content: new_text };
                self.set(idx, updated);
                Ok(())
            },
            None => Err(EditError::IndexOutOfRange),
        }
    }

    /// Removes the message at `idx`; out of range removes nothing.
    pub fn remove(&mut self, idx: usize) -> (r: Result<(), EditError>)
        ensures
            final(self)@ == apply_edit(old(self)@, StackEditView::Remove { idx: idx as int }),
            r == if idx < old(self)@.len() {
                Result::<(), EditError>::Ok(())
            } else {
                Result::<(), EditError>::Err(EditError::IndexOutOfRange)
            },
    {
        if idx < self.len() {
            self.remove_at(idx);
            Ok(())
        } else {
            Err(EditError::IndexOutOfRange)
        }
    }
}

} // verus!
