//! The ordered queue of pending edits.
//!
//! Producers append at the tail; the reconciliation pass drains everything at
//! once, in first-in-first-out order.  A drained element is consumed exactly
//! once: it either reaches the authoritative transcript or is deliberately
//! discarded there, but it is never lost by the queue itself.

use std::collections::VecDeque;

use vstd::prelude::*;

use crate::edits::{CacheEdit, CacheEditView};

verus! {

/// The values of a sequence of pending edits.
pub open spec fn pending_views(s: Seq<CacheEdit>) -> Seq<CacheEditView> {
    s.map_values(|e: CacheEdit| e@)
}

/// A first-in-first-out queue of pending edits.
#[derive(Debug)]
pub struct EditQueue {
    items: VecDeque<CacheEdit>,
}

impl View for EditQueue {
    type V = Seq<CacheEditView>;

    closed spec fn view(&self) -> Seq<CacheEditView> {
        pending_views(self.items@)
    }
}

impl EditQueue {
    pub fn new() -> (q: EditQueue)
        ensures
            q@ == Seq::<CacheEditView>::empty(),
    {
        let q = EditQueue { items: VecDeque::new() };
        proof {
            assert(q@ =~= Seq::<CacheEditView>::empty());
        }
        q
    }

    pub fn len(&self) -> (n: usize)
        ensures
            n == self@.len(),
    {
        self.items.len()
    }

    /// Appends one pending edit at the tail.  Never drops or reorders what is
    /// already queued.
    pub fn push(&mut self, edit: CacheEdit)
        ensures
            final(self)@ == old(self)@.push(edit@),
    {
        self.items.push_back(edit);
        proof {
            assert(final(self)@ =~= old(self)@.push(edit@));
        }
    }

    /// Removes and returns the oldest pending edit, if any.
    pub fn pop_front(&mut self) -> (r: Option<CacheEdit>)
        ensures
            match r {
                Some(e) => old(self)@.len() > 0 && e@ == old(self)@[0] && final(self)@ == old(
                    self,
                )@.drop_first(),
                None => old(self)@.len() == 0 && final(self)@ == old(self)@,
            },
    {
        let r = self.items.pop_front();
        proof {
            if old(self).items@.len() > 0 {
                assert(final(self)@ =~= old(self)@.drop_first());
            } else {
                assert(final(self)@ =~= old(self)@);
            }
        }
        r
    }

    /// Removes and returns every queued element, oldest first, leaving the
    /// queue empty.  Every element appears in the result exactly once.
    pub fn drain_all(&mut self) -> (out: Vec<CacheEdit>)
        ensures
            pending_views(out@) == old(self)@,
            final(self)@ == Seq::<CacheEditView>::empty(),
    {
        let mut out: Vec<CacheEdit> = Vec::new();
        loop
            invariant
                pending_views(out@) + self@ == old(self)@,
            ensures
                self@.len() == 0,
                pending_views(out@) + self@ == old(self)@,
            decreases self@.len(),
        {
            match self.pop_front() {
                Some(e) => {
                    out.push(e);
                    proof {
                        assert(pending_views(out@) + self@ =~= old(self)@);
                    }
                },
                None => {
                    break ;
                },
            }
        }
        proof {
            assert(pending_views(out@) =~= pending_views(out@) + self@);
        }
        out
    }
}

} // verus!
