//! The hook the dispatch engine drives.
//!
//! The engine owns the authoritative transcripts and invokes this listener at
//! two well-defined points of its own request lifecycle.  Immediately before
//! it services a cache-sensitive request, the listener drains the edit queue
//! and applies every pending edit to the authoritative transcripts in
//! submission order, so the engine never works against stale state.  Whenever
//! the engine reports that an agent's state changed, the listener overwrites
//! that agent's snapshot with the authoritative transcript in full —
//! authoritative state always wins over optimistic guesses.
//!
//! The engine itself is an external collaborator.  This module models its
//! message stream with [`EnvMessage`] and its agent registry with a
//! [`TranscriptStore`]; the thin process shell adapts both to the real engine.

use vstd::prelude::*;

use crate::edits::CacheEditView;
use crate::queue::EditQueue;
use crate::store::TranscriptStore;
use crate::transcript::{MessageStack, MessageView};

verus! {

/// Kinds of requests the engine processes.
#[derive(Clone, Copy, PartialEq, Eq, Structural, Debug)]
pub enum EnvRequestKind {
    PushToCache,
    GetCompletion,
    GetAgentState,
    GetCompletionStreamHandle,
    Other,
}

/// Notifications the engine emits after acting.
#[derive(Debug)]
pub enum EnvNotification {
    /// The agent's authoritative transcript is now `cache`, in full.
    AgentStateUpdate { agent_id: String, cache: MessageStack },
    Other,
}

/// One message observed on the engine's dispatch channel.
#[derive(Debug)]
pub enum EnvMessage {
    Request(EnvRequestKind),
    Response(EnvNotification),
    Other,
}

/// The listener refuses messages its trigger did not select.
#[derive(Clone, Copy, PartialEq, Eq, Structural, Debug)]
pub enum ListenerError {
    IncorrectTrigger,
}

/// Whether a request must see a fully reconciled transcript before the engine
/// services it.
pub open spec fn is_cache_sensitive(kind: EnvRequestKind) -> bool {
    match kind {
        EnvRequestKind::PushToCache => true,
        EnvRequestKind::GetCompletion => true,
        EnvRequestKind::GetAgentState => true,
        EnvRequestKind::GetCompletionStreamHandle => true,
        EnvRequestKind::Other => false,
    }
}

/// The trigger predicate: a pure function of the message's kind alone.
pub open spec fn triggers_ui_updates(m: EnvMessage) -> bool {
    match m {
        EnvMessage::Request(kind) => is_cache_sensitive(kind),
        EnvMessage::Response(n) => n is AgentStateUpdate,
        EnvMessage::Other => false,
    }
}

/// One pending edit applied to a registry of transcripts: an unknown agent
/// discards the edit, and an out-of-range index leaves the transcript as it
/// was (see [`crate::edits::apply_edit`]).
pub open spec fn apply_pending(
    registry: Map<Seq<char>, Seq<MessageView>>,
    e: CacheEditView,
) -> Map<Seq<char>, Seq<MessageView>> {
    if registry.contains_key(e.agent_id) {
        registry.insert(e.agent_id, crate::edits::apply_edit(registry[e.agent_id], e.edit))
    } else {
        registry
    }
}

/// A whole batch of pending edits applied in order, oldest first.
pub open spec fn apply_all(
    registry: Map<Seq<char>, Seq<MessageView>>,
    edits: Seq<CacheEditView>,
) -> Map<Seq<char>, Seq<MessageView>>
    decreases edits.len(),
{
    if edits.len() == 0 {
        registry
    } else {
        apply_all(apply_pending(registry, edits.first()), edits.drop_first())
    }
}

/// The listener the engine holds: the pending-edit queue and the snapshot
/// store it reconciles.
pub struct UiUpdatesListener {
    pub(crate) shared_cache_changes: EditQueue,
    pub(crate) shared_cache_states: TranscriptStore,
}

impl UiUpdatesListener {
    /// The queued edits, oldest first.
    pub open(crate) spec fn pending(&self) -> Seq<CacheEditView> {
        self.shared_cache_changes@
    }

    /// The snapshot store's value.
    pub open(crate) spec fn snapshots(&self) -> Map<Seq<char>, Seq<MessageView>> {
        self.shared_cache_states@
    }

    pub fn new(shared_cache_changes: EditQueue, shared_cache_states: TranscriptStore) -> (l:
        UiUpdatesListener)
        ensures
            l.pending() == shared_cache_changes@,
            l.snapshots() == shared_cache_states@,
    {
        UiUpdatesListener { shared_cache_changes, shared_cache_states }
    }

    /// Selects the messages this listener acts on.  A pure predicate over the
    /// message's kind: it inspects no state and mutates nothing.
    pub fn trigger<'l>(&self, env_message: &'l EnvMessage) -> (r: Option<&'l EnvMessage>)
        ensures
            r == if triggers_ui_updates(*env_message) {
                Option::Some(env_message)
            } else {
                Option::<&'l EnvMessage>::None
            },
    {
        match env_message {
            EnvMessage::Request(kind) => match kind {
                EnvRequestKind::PushToCache
                | EnvRequestKind::GetCompletion
                | EnvRequestKind::GetAgentState
                | EnvRequestKind::GetCompletionStreamHandle => Some(env_message),
                EnvRequestKind::Other => None,
            },
            EnvMessage::Response(n) => match n {
                EnvNotification::AgentStateUpdate { .. } => Some(env_message),
                EnvNotification::Other => None,
            },
            EnvMessage::Other => None,
        }
    }

    /// The action the engine runs with exclusive access to its registry.
    ///
    /// A state-update notification overwrites that agent's snapshot with the
    /// authoritative transcript, in full.  A cache-sensitive request drains
    /// the queue and applies every pending edit to the registry in submission
    /// order; edits naming unknown agents or out-of-range indices are
    /// discarded, never retried.  Either way the trigger message proceeds
    /// unchanged; a message the trigger did not select is refused.
    pub fn method(&mut self, trigger_message: EnvMessage, dispatch: &mut TranscriptStore) -> (r:
        Result<EnvMessage, ListenerError>)
        ensures
            match trigger_message {
                EnvMessage::Response(EnvNotification::AgentStateUpdate { agent_id, cache }) => {
                    &&& final(self).snapshots() == old(self).snapshots().insert(agent_id@, cache@)
                    &&& final(self).pending() == old(self).pending()
                    &&& final(dispatch)@ == old(dispatch)@
                },
                EnvMessage::Request(kind) => {
                    if is_cache_sensitive(kind) {
                        &&& final(dispatch)@ == apply_all(old(dispatch)@, old(self).pending())
                        &&& final(self).pending() == Seq::<CacheEditView>::empty()
                        &&& final(self).snapshots() == old(self).snapshots()
                    } else {
                        &&& *final(self) == *old(self)
                        &&& final(dispatch)@ == old(dispatch)@
                    }
                },
                _ => {
                    &&& *final(self) == *old(self)
                    &&& final(dispatch)@ == old(dispatch)@
                },
            },
            r == if triggers_ui_updates(trigger_message) {
                Result::<EnvMessage, ListenerError>::Ok(trigger_message)
            } else {
                Result::<EnvMessage, ListenerError>::Err(ListenerError::IncorrectTrigger)
            },
    {
        match &trigger_message {
            EnvMessage::Response(EnvNotification::AgentStateUpdate { agent_id, cache }) => {
                self.shared_cache_states.set(agent_id.clone(), cache.duplicate());
                Ok(trigger_message)
            },
            EnvMessage::Request(kind) => match kind {
                EnvRequestKind::PushToCache
                | EnvRequestKind::GetCompletion
                | EnvRequestKind::GetAgentState
                | EnvRequestKind::GetCompletionStreamHandle => {
                    self.reconcile(dispatch);
                    Ok(trigger_message)
                },
                EnvRequestKind::Other => Err(ListenerError::IncorrectTrigger),
            },
            _ => Err(ListenerError::IncorrectTrigger),
        }
    }

    /// Drains the queue and applies every pending edit to the engine's
    /// registry, oldest first.
    fn reconcile(&mut self, dispatch: &mut TranscriptStore)
        ensures
            final(dispatch)@ == apply_all(old(dispatch)@, old(self).pending()),
            final(self).pending() == Seq::<CacheEditView>::empty(),
            final(self).snapshots() == old(self).snapshots(),
    {
        loop
            invariant
                apply_all(dispatch@, self.pending()) == apply_all(
                    old(dispatch)@,
                    old(self).pending(),
                ),
                self.snapshots() == old(self).snapshots(),
            ensures
                self.pending().len() == 0,
                apply_all(dispatch@, self.pending()) == apply_all(
                    old(dispatch)@,
                    old(self).pending(),
                ),
                self.snapshots() == old(self).snapshots(),
            decreases self.pending().len(),
        {
            match self.shared_cache_changes.pop_front() {
                Some(change) => {
                    let _ = dispatch.apply_edit_in_place(change.agent_id.as_str(), change.edit);
                },
                None => {
                    break ;
                },
            }
        }
    }
}

} // verus!
