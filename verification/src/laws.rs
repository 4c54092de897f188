//! The guarantees the synchronization subsystem is built around, each proved
//! from the contracts the components state.

use vstd::prelude::*;

use crate::edits::{apply_edit, edit_in_range, CacheEditView, StackEditView};
use crate::listener::{apply_all, apply_pending};
use crate::transcript::MessageView;

verus! {

/// A sequence of edits applied to one transcript, one at a time, oldest first.
pub open spec fn apply_edits_to(
    t: Seq<MessageView>,
    edits: Seq<StackEditView>,
) -> Seq<MessageView>
    decreases edits.len(),
{
    if edits.len() == 0 {
        t
    } else {
        apply_edits_to(apply_edit(t, edits.first()), edits.drop_first())
    }
}

/// The queue after a batch of submissions, each appended at the tail in the
/// order submitted — the fold of [`crate::handler::UiListenerHandler::push_to_changes`]'s
/// contract.
pub open spec fn queue_after(
    q0: Seq<CacheEditView>,
    submitted: Seq<CacheEditView>,
) -> Seq<CacheEditView>
    decreases submitted.len(),
{
    if submitted.len() == 0 {
        q0
    } else {
        queue_after(q0.push(submitted.first()), submitted.drop_first())
    }
}

/// First-in-first-out application: when every queued edit targets the same
/// agent, the transcript that agent ends with after one reconciliation pass
/// equals the edits applied one at a time, in submission order, to the
/// pre-reconciliation transcript.
pub proof fn lemma_fifo_application(
    registry: Map<Seq<char>, Seq<MessageView>>,
    edits: Seq<CacheEditView>,
    agent: Seq<char>,
)
    requires
        registry.contains_key(agent),
        forall|i: int| 0 <= i < edits.len() ==> #[trigger] edits[i].agent_id == agent,
    ensures
        apply_all(registry, edits).contains_key(agent),
        apply_all(registry, edits)[agent] == apply_edits_to(
            registry[agent],
            edits.map_values(|e: CacheEditView| e.edit),
        ),
    decreases edits.len(),
{
    let payloads = edits.map_values(|e: CacheEditView| e.edit);
    if edits.len() == 0 {
        assert(payloads.len() == 0);
    } else {
        let stepped = apply_pending(registry, edits.first());
        assert(edits.first().agent_id == agent);
        assert(stepped[agent] == apply_edit(registry[agent], edits.first().edit));
        lemma_fifo_application(stepped, edits.drop_first(), agent);
        assert(edits.drop_first().map_values(|e: CacheEditView| e.edit) =~= payloads.drop_first());
        assert(payloads.first() == edits.first().edit);
    }
}

/// No lost edits: a batch of accepted submissions lands at the tail of the
/// queue, in submission order, each exactly once; together with
/// [`crate::queue::EditQueue::drain_all`]'s contract, every accepted edit
/// appears exactly once in the next drain.
pub proof fn lemma_no_lost_edits(q0: Seq<CacheEditView>, submitted: Seq<CacheEditView>)
    ensures
        queue_after(q0, submitted) == q0 + submitted,
    decreases submitted.len(),
{
    if submitted.len() == 0 {
        assert(q0 + submitted =~= q0);
    } else {
        lemma_no_lost_edits(q0.push(submitted.first()), submitted.drop_first());
        assert(q0.push(submitted.first()) + submitted.drop_first() =~= q0 + submitted);
    }
}

/// First-in-first-out application, end to end: a batch of edits for one agent
/// submitted into an empty queue and then reconciled leaves that agent's
/// authoritative transcript equal to the edits applied one at a time, in
/// submission order, to the pre-edit transcript.
pub proof fn lemma_fifo_end_to_end(
    registry: Map<Seq<char>, Seq<MessageView>>,
    submitted: Seq<CacheEditView>,
    agent: Seq<char>,
)
    requires
        registry.contains_key(agent),
        forall|i: int| 0 <= i < submitted.len() ==> #[trigger] submitted[i].agent_id == agent,
    ensures
        apply_all(registry, queue_after(Seq::<CacheEditView>::empty(), submitted))[agent]
            == apply_edits_to(registry[agent], submitted.map_values(|e: CacheEditView| e.edit)),
{
    lemma_no_lost_edits(Seq::<CacheEditView>::empty(), submitted);
    assert(queue_after(Seq::<CacheEditView>::empty(), submitted) =~= submitted);
    lemma_fifo_application(registry, submitted, agent);
}

/// Eventual convergence: once the engine reports authoritative transcript `t`
/// for `agent` — the snapshot-overwrite arm of
/// [`crate::listener::UiUpdatesListener::method`] — a read of that agent
/// returns exactly `t`, and no other agent's snapshot moved.
pub proof fn lemma_eventual_convergence(
    snapshots: Map<Seq<char>, Seq<MessageView>>,
    agent: Seq<char>,
    t: Seq<MessageView>,
)
    ensures
        snapshots.insert(agent, t).contains_key(agent),
        snapshots.insert(agent, t)[agent] == t,
        forall|other: Seq<char>|
            other != agent && snapshots.contains_key(other) ==> snapshots.insert(agent, t)[other]
                == snapshots[other],
{
}

/// Optimistic visibility: immediately after an append is submitted for a known
/// agent — before any reconciliation — reading that agent's snapshot shows the
/// old transcript with the new message as its last element.
pub proof fn lemma_optimistic_visibility(
    snapshots: Map<Seq<char>, Seq<MessageView>>,
    agent: Seq<char>,
    m: MessageView,
)
    requires
        snapshots.contains_key(agent),
    ensures
        ({
            let e = CacheEditView { agent_id: agent, edit: StackEditView::Push { message: m } };
            let after = apply_pending(snapshots, e);
            &&& after.contains_key(agent)
            &&& after[agent] == snapshots[agent].push(m)
            &&& after[agent].len() == snapshots[agent].len() + 1
            &&& after[agent].last() == m
        }),
{
}

/// Index drop safety: an in-place edit or removal whose index is at or beyond
/// the transcript's length leaves the transcript exactly as it was, and is the
/// case every applier reports as out of range.
pub proof fn lemma_index_drop_safety(t: Seq<MessageView>, e: StackEditView)
    requires
        match e {
            StackEditView::Edit { idx, .. } => idx >= t.len(),
            StackEditView::Remove { idx } => idx >= t.len(),
            StackEditView::Push { .. } => false,
        },
    ensures
        apply_edit(t, e) == t,
        !edit_in_range(t, e),
{
}

} // verus!
