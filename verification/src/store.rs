//! A shared mapping from agent identifier to the latest known transcript.
//!
//! The same structure serves two roles.  The snapshot store holds the
//! subsystem's best-effort copies of every transcript, updated optimistically
//! on submission and overwritten whenever the engine reports authoritative
//! state.  The reconciliation pass works against the engine's own registry of
//! authoritative transcripts, which this library models with the same type.
//! Either way the store hands out owned copies, never live references.

use vstd::hash_map::StringHashMap;
use vstd::prelude::*;

use crate::edits::{apply_edit, edit_in_range, EditError, StackEdit};
use crate::transcript::{MessageStack, MessageView};

verus! {

/// Agent identifier to transcript, one entry per known agent.
pub struct TranscriptStore {
    map: StringHashMap<MessageStack>,
}

impl View for TranscriptStore {
    type V = Map<Seq<char>, Seq<MessageView>>;

    closed spec fn view(&self) -> Map<Seq<char>, Seq<MessageView>> {
        Map::new(|k: Seq<char>| self.map@.dom().contains(k), |k: Seq<char>| self.map@[k]@)
    }
}

impl TranscriptStore {
    pub fn new() -> (s: TranscriptStore)
        ensures
            s@ == Map::<Seq<char>, Seq<MessageView>>::empty(),
    {
        let s = TranscriptStore { map: StringHashMap::new() };
        proof {
            assert(s@ =~= Map::<Seq<char>, Seq<MessageView>>::empty());
        }
        s
    }

    pub fn contains(&self, agent_id: &str) -> (r: bool)
        ensures
            r == self@.contains_key(agent_id@),
    {
        self.map.contains_key(agent_id)
    }

    /// Overwrites the entry for `agent_id` with `cache`, creating it if
    /// absent.  Idempotent: the new entry is exactly `cache`, whatever was
    /// there before.
    pub fn set(&mut self, agent_id: String, cache: MessageStack)
        ensures
            final(self)@ == old(self)@.insert(agent_id@, cache@),
    {
        self.map.insert(agent_id, cache);
        proof {
            assert(final(self)@ =~= old(self)@.insert(agent_id@, cache@));
        }
    }

    /// An owned copy of the transcript for `agent_id`; an unknown agent yields
    /// `None`, not an error.
    pub fn get(&self, agent_id: &str) -> (r: Option<MessageStack>)
        ensures
            match r {
                Some(s) => self@.contains_key(agent_id@) && s@ == self@[agent_id@],
                None => !self@.contains_key(agent_id@),
            },
    {
        match self.map.get(agent_id) {
            Some(s) => Some(s.duplicate()),
            None => None,
        }
    }

    /// Fetches, edits and stores back the transcript for `agent_id` as one
    /// step.  An unknown agent reports `AgentNotFound`; an out-of-range index
    /// reports `IndexOutOfRange`; in both cases the store is unchanged.
    pub fn apply_edit_in_place(&mut self, agent_id: &str, edit: StackEdit) -> (r: Result<
        (),
        EditError,
    >)
        ensures
            final(self)@ == if old(self)@.contains_key(agent_id@) {
                old(self)@.insert(agent_id@, apply_edit(old(self)@[agent_id@], edit@))
            } else {
                old(self)@
            },
            r == if !old(self)@.contains_key(agent_id@) {
                Result::<(), EditError>::Err(EditError::AgentNotFound)
            } else if edit_in_range(old(self)@[agent_id@], edit@) {
                Result::<(), EditError>::Ok(())
            } else {
                Result::<(), EditError>::Err(EditError::IndexOutOfRange)
            },
    {
        match self.map.get(agent_id) {
            Some(existing) => {
                let mut cache = existing.duplicate();
                let applied = edit.make_edit(&mut cache);
                let owned_id = agent_id.to_owned();
                self.map.insert(owned_id, cache);
                proof {
                    assert(final(self)@ =~= old(self)@.insert(
                        agent_id@,
                        apply_edit(old(self)@[agent_id@], edit@),
                    ));
                }
                applied
            },
            None => Err(EditError::AgentNotFound),
        }
    }
}

} // verus!
