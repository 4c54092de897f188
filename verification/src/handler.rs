//! The facade the UI talks to.
//!
//! Submissions are applied to the snapshot store immediately, as a best-effort
//! optimistic guess, and queued unconditionally for authoritative application;
//! reads are served straight from the snapshot store and never wait on the
//! engine.  The queue is the durable channel, the snapshot only a cache: a
//! stale or missing snapshot never blocks the authoritative path.

use vstd::prelude::*;

use crate::edits::{CacheEdit, CacheEditView, EditError, StackEdit};
use crate::listener::{apply_pending, EnvMessage, ListenerError, UiUpdatesListener};
use crate::queue::EditQueue;
use crate::store::TranscriptStore;
use crate::transcript::{Message, MessageStack, MessageView};

verus! {

/// The snapshot store built from a list of `(agent id, transcript)` pairs,
/// later entries overwriting earlier ones with the same id.
pub open spec fn registry_of(
    agents: Seq<(String, MessageStack)>,
) -> Map<Seq<char>, Seq<MessageView>>
    decreases agents.len(),
{
    if agents.len() == 0 {
        Map::<Seq<char>, Seq<MessageView>>::empty()
    } else {
        registry_of(agents.drop_last()).insert(agents.last().0@, agents.last().1@)
    }
}

/// The one entry point the UI layer has to the synchronization subsystem:
/// nothing else may touch the snapshot store or the edit queue.
pub struct UiListenerHandler {
    listener: UiUpdatesListener,
}

impl UiListenerHandler {
    /// The queued edits, oldest first.
    pub closed spec fn pending(&self) -> Seq<CacheEditView> {
        self.listener.pending()
    }

    /// The snapshot store's value.
    pub closed spec fn snapshots(&self) -> Map<Seq<char>, Seq<MessageView>> {
        self.listener.snapshots()
    }

    /// Warms the snapshot store with the agents the engine manages and starts
    /// with an empty queue.
    pub fn new(agent_tup_vec: Vec<(String, MessageStack)>) -> (h: UiListenerHandler)
        ensures
            h.pending() == Seq::<CacheEditView>::empty(),
            h.snapshots() == registry_of(agent_tup_vec@),
    {
        let mut states = TranscriptStore::new();
        let agents = agent_tup_vec;
        let n = agents.len();
        proof {
            assert(states@ =~= registry_of(agents@.take(0)));
        }
        let mut i: usize = 0;
        while i < n
            invariant
                n == agents@.len(),
                i <= n,
                states@ == registry_of(agents@.take(i as int)),
            decreases n - i,
        {
            let entry = &agents[i];
            let id = entry.0.clone();
            let cache = entry.1.duplicate();
            states.set(id, cache);
            proof {
                assert(agents@.take(i + 1 as int).drop_last() =~= agents@.take(i as int));
                assert(agents@.take(i + 1 as int).last() == agents@[i as int]);
            }
            i = i + 1;
        }
        proof {
            assert(agents@.take(n as int) =~= agents@);
        }
        UiListenerHandler { listener: UiUpdatesListener::new(EditQueue::new(), states) }
    }

    /// A copy of the latest known transcript for `agent_id`, straight from the
    /// snapshot store; an unknown agent yields `None`.  Never consults the
    /// engine or the queue.
    pub fn get_state_of_agent(&self, id: &str) -> (r: Option<MessageStack>)
        ensures
            match r {
                Some(s) => self.snapshots().contains_key(id@) && s@ == self.snapshots()[id@],
                None => !self.snapshots().contains_key(id@),
            },
    {
        self.listener.shared_cache_states.get(id)
    }

    /// Reads the snapshot: `get_state_of_agent` under the name the UI layer
    /// uses.
    pub fn read_transcript(&self, agent_id: &str) -> (r: Option<MessageStack>)
        ensures
            match r {
                Some(s) => self.snapshots().contains_key(agent_id@) && s@ == self.snapshots()[agent_id@],
                None => !self.snapshots().contains_key(agent_id@),
            },
    {
        self.get_state_of_agent(agent_id)
    }

    /// Applies `edit` to the snapshot store for immediate UI feedback —
    /// best-effort, an unknown agent or out-of-range index leaves the snapshot
    /// unchanged — and queues it unconditionally for authoritative
    /// application.  The optimistic outcome never blocks the queue.
    pub fn push_to_changes(&mut self, edit: CacheEdit) -> (r: Result<(), EditError>)
        ensures
            final(self).pending() == old(self).pending().push(edit@),
            final(self).snapshots() == apply_pending(old(self).snapshots(), edit@),
            r is Ok,
    {
        let optimistic = edit.duplicate();
        let _ = self.listener.shared_cache_states.apply_edit_in_place(
            optimistic.agent_id.as_str(),
            optimistic.edit,
        );
        self.listener.shared_cache_changes.push(edit);
        Ok(())
    }

    /// Submits an append of `message` to `agent_id`'s transcript.
    pub fn submit_append(&mut self, agent_id: String, message: Message) -> (r: Result<
        (),
        EditError,
    >)
        ensures
            final(self).pending() == old(self).pending().push(
                CacheEditView {
                    agent_id: agent_id@,
                    edit: crate::edits::StackEditView::Push { message: message@ },
                },
            ),
            final(self).snapshots() == apply_pending(
                old(self).snapshots(),
                CacheEditView {
                    agent_id: agent_id@,
                    edit: crate::edits::StackEditView::Push { message: message@ },
                },
            ),
            r is Ok,
    {
        self.push_to_changes(
            CacheEdit { agent_id, edit: StackEdit::PushMessageToCache { message } },
        )
    }

    /// Submits an in-place replacement of the content at `index`.
    pub fn submit_modify(&mut self, agent_id: String, index: usize, new_content: String) -> (r:
        Result<(), EditError>)
        ensures
            final(self).pending() == old(self).pending().push(
                CacheEditView {
                    agent_id: agent_id@,
                    edit: crate::edits::StackEditView::Edit {
                        idx: index as int,
                        new_text: new_content@,
                    },
                },
            ),
            final(self).snapshots() == apply_pending(
                old(self).snapshots(),
                CacheEditView {
                    agent_id: agent_id@,
                    edit: crate::edits::StackEditView::Edit {
                        idx: index as int,
                        new_text: new_content@,
                    },
                },
            ),
            r is Ok,
    {
        self.push_to_changes(
            CacheEdit {
                agent_id,
                edit: StackEdit::EditMessageInCache { idx: index, new_text: new_content },
            },
        )
    }

    /// Submits a removal of the message at `index`.
    pub fn submit_remove(&mut self, agent_id: String, index: usize) -> (r: Result<(), EditError>)
        ensures
            final(self).pending() == old(self).pending().push(
                CacheEditView {
                    agent_id: agent_id@,
                    edit: crate::edits::StackEditView::Remove { idx: index as int },
                },
            ),
            final(self).snapshots() == apply_pending(
                old(self).snapshots(),
                CacheEditView {
                    agent_id: agent_id@,
                    edit: crate::edits::StackEditView::Remove { idx: index as int },
                },
            ),
            r is Ok,
    {
        self.push_to_changes(
            CacheEdit { agent_id, edit: StackEdit::RemoveMessageInCache { idx: index } },
        )
    }

    /// Hands an engine message to the listener; see
    /// [`UiUpdatesListener::method`].
    pub fn handle_env_message(
        &mut self,
        trigger_message: EnvMessage,
        dispatch: &mut TranscriptStore,
    ) -> (r: Result<EnvMessage, ListenerError>)
        ensures
            match trigger_message {
                EnvMessage::Response(
                    crate::listener::EnvNotification::AgentStateUpdate { agent_id, cache },
                ) => {
                    &&& final(self).snapshots() == old(self).snapshots().insert(agent_id@, cache@)
                    &&& final(self).pending() == old(self).pending()
                    &&& final(dispatch)@ == old(dispatch)@
                },
                EnvMessage::Request(kind) => {
                    if crate::listener::is_cache_sensitive(kind) {
                        &&& final(dispatch)@ == crate::listener::apply_all(
                            old(dispatch)@,
                            old(self).pending(),
                        )
                        &&& final(self).pending() == Seq::<CacheEditView>::empty()
                        &&& final(self).snapshots() == old(self).snapshots()
                    } else {
                        &&& final(self).pending() == old(self).pending()
                        &&& final(self).snapshots() == old(self).snapshots()
                        &&& final(dispatch)@ == old(dispatch)@
                    }
                },
                _ => {
                    &&& final(self).pending() == old(self).pending()
                    &&& final(self).snapshots() == old(self).snapshots()
                    &&& final(dispatch)@ == old(dispatch)@
                },
            },
            r == if crate::listener::triggers_ui_updates(trigger_message) {
                Result::<EnvMessage, ListenerError>::Ok(trigger_message)
            } else {
                Result::<EnvMessage, ListenerError>::Err(ListenerError::IncorrectTrigger)
            },
    {
        self.listener.method(trigger_message, dispatch)
    }
}

} // verus!
