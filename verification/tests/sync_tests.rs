use espx_ui::edits::{CacheEdit, EditError, StackEdit};
use espx_ui::handler::UiListenerHandler;
use espx_ui::listener::{
    EnvMessage, EnvNotification, EnvRequestKind, ListenerError, UiUpdatesListener,
};
use espx_ui::queue::EditQueue;
use espx_ui::store::TranscriptStore;
use espx_ui::transcript::{Message, MessageRole, MessageStack};

fn stack_of(entries: &[(MessageRole, &str)]) -> MessageStack {
    let mut s = MessageStack::new();
    for (role, content) in entries {
        s.push(Message { role: *role, content: (*content).to_string() });
    }
    s
}

fn contents(s: &MessageStack) -> Vec<(MessageRole, String)> {
    let mut out = Vec::new();
    let mut i = 0;
    while let Some(m) = s.get(i) {
        out.push((m.role, m.content));
        i += 1;
    }
    out
}

#[test]
fn append_then_reconcile_then_edit_and_remove() {
    // agent "a1" starts with transcript [User:"hi"] on both sides
    let snapshot = stack_of(&[(MessageRole::User, "hi")]);
    let mut handler = UiListenerHandler::new(vec![("a1".to_string(), snapshot)]);
    let mut registry = TranscriptStore::new();
    registry.set("a1".to_string(), stack_of(&[(MessageRole::User, "hi")]));

    // append Assistant:"hello": the snapshot shows it immediately
    handler
        .submit_append("a1".to_string(), Message::new_assistant("hello"))
        .unwrap();
    let snap = handler.read_transcript("a1").unwrap();
    assert_eq!(
        contents(&snap),
        vec![
            (MessageRole::User, "hi".to_string()),
            (MessageRole::Assistant, "hello".to_string())
        ]
    );

    // reconciliation: the authoritative transcript becomes the same
    handler
        .handle_env_message(
            EnvMessage::Request(EnvRequestKind::GetCompletion),
            &mut registry,
        )
        .unwrap();
    let auth = registry.get("a1").unwrap();
    assert_eq!(
        contents(&auth),
        vec![
            (MessageRole::User, "hi".to_string()),
            (MessageRole::Assistant, "hello".to_string())
        ]
    );

    // modify index 1 then remove index 0, in that order
    handler
        .submit_modify("a1".to_string(), 1, "hello there".to_string())
        .unwrap();
    handler.submit_remove("a1".to_string(), 0).unwrap();
    handler
        .handle_env_message(
            EnvMessage::Request(EnvRequestKind::PushToCache),
            &mut registry,
        )
        .unwrap();
    let auth = registry.get("a1").unwrap();
    assert_eq!(
        contents(&auth),
        vec![(MessageRole::Assistant, "hello there".to_string())]
    );
}

#[test]
fn out_of_range_edit_is_dropped_silently() {
    // transcript of length 2; an edit at index 5 changes nothing anywhere
    let snapshot = stack_of(&[(MessageRole::User, "a"), (MessageRole::Assistant, "b")]);
    let mut handler = UiListenerHandler::new(vec![("a1".to_string(), snapshot)]);
    let mut registry = TranscriptStore::new();
    registry.set(
        "a1".to_string(),
        stack_of(&[(MessageRole::User, "a"), (MessageRole::Assistant, "b")]),
    );

    let r = handler.submit_modify("a1".to_string(), 5, "x".to_string());
    assert!(r.is_ok());
    let snap = handler.read_transcript("a1").unwrap();
    assert_eq!(snap.len(), 2);
    assert_eq!(snap.get(0).unwrap().content, "a");
    assert_eq!(snap.get(1).unwrap().content, "b");

    handler
        .handle_env_message(
            EnvMessage::Request(EnvRequestKind::GetAgentState),
            &mut registry,
        )
        .unwrap();
    let auth = registry.get("a1").unwrap();
    assert_eq!(auth.len(), 2);
    assert_eq!(auth.get(0).unwrap().content, "a");
    assert_eq!(auth.get(1).unwrap().content, "b");
}

#[test]
fn snapshot_listener_overwrites_snapshot() {
    let mut handler = UiListenerHandler::new(vec![("a1".to_string(), MessageStack::new())]);
    let mut registry = TranscriptStore::new();

    // an optimistic guess sits in the snapshot
    handler
        .submit_append("a1".to_string(), Message::new_user("guess"))
        .unwrap();
    assert_eq!(handler.read_transcript("a1").unwrap().len(), 1);

    // the engine reports authoritative state: it wins, wholesale
    let authoritative = stack_of(&[
        (MessageRole::User, "question"),
        (MessageRole::Assistant, "answer"),
    ]);
    handler
        .handle_env_message(
            EnvMessage::Response(EnvNotification::AgentStateUpdate {
                agent_id: "a1".to_string(),
                cache: authoritative,
            }),
            &mut registry,
        )
        .unwrap();
    let snap = handler.read_transcript("a1").unwrap();
    assert_eq!(
        contents(&snap),
        vec![
            (MessageRole::User, "question".to_string()),
            (MessageRole::Assistant, "answer".to_string())
        ]
    );
}

#[test]
fn unknown_agent_edit_is_queued_but_discarded() {
    let mut handler = UiListenerHandler::new(vec![]);
    let mut registry = TranscriptStore::new();

    // the snapshot has no such agent: the submission still succeeds
    let r = handler.submit_append("ghost".to_string(), Message::new_user("hi"));
    assert!(r.is_ok());
    assert!(handler.read_transcript("ghost").is_none());

    // reconciliation discards the edit: the engine knows no such agent either
    handler
        .handle_env_message(
            EnvMessage::Request(EnvRequestKind::GetCompletion),
            &mut registry,
        )
        .unwrap();
    assert!(registry.get("ghost").is_none());
}

#[test]
fn queue_is_fifo_and_drains_once() {
    let mut q = EditQueue::new();
    assert_eq!(q.len(), 0);
    for idx in 0..4usize {
        q.push(CacheEdit {
            agent_id: format!("agent-{}", idx),
            edit: StackEdit::RemoveMessageInCache { idx },
        });
    }
    assert_eq!(q.len(), 4);
    let drained = q.drain_all();
    assert_eq!(q.len(), 0);
    let ids: Vec<String> = drained.iter().map(|e| e.agent_id.clone()).collect();
    assert_eq!(ids, vec!["agent-0", "agent-1", "agent-2", "agent-3"]);
    assert_eq!(q.drain_all().len(), 0);
}

#[test]
fn queue_pop_front_returns_oldest() {
    let mut q = EditQueue::new();
    q.push(CacheEdit {
        agent_id: "first".to_string(),
        edit: StackEdit::RemoveMessageInCache { idx: 0 },
    });
    q.push(CacheEdit {
        agent_id: "second".to_string(),
        edit: StackEdit::RemoveMessageInCache { idx: 0 },
    });
    assert_eq!(q.pop_front().unwrap().agent_id, "first");
    assert_eq!(q.pop_front().unwrap().agent_id, "second");
    assert!(q.pop_front().is_none());
}

#[test]
fn store_get_set_and_errors() {
    let mut store = TranscriptStore::new();
    assert!(store.get("a1").is_none());
    assert!(!store.contains("a1"));

    store.set("a1".to_string(), stack_of(&[(MessageRole::User, "one")]));
    assert!(store.contains("a1"));
    assert_eq!(store.get("a1").unwrap().len(), 1);

    // idempotent overwrite
    store.set("a1".to_string(), stack_of(&[(MessageRole::User, "two")]));
    assert_eq!(store.get("a1").unwrap().get(0).unwrap().content, "two");

    // unknown agent
    let r = store.apply_edit_in_place("nope", StackEdit::RemoveMessageInCache { idx: 0 });
    assert_eq!(r, Err(EditError::AgentNotFound));

    // out-of-range index
    let r = store.apply_edit_in_place("a1", StackEdit::RemoveMessageInCache { idx: 7 });
    assert_eq!(r, Err(EditError::IndexOutOfRange));
    assert_eq!(store.get("a1").unwrap().len(), 1);

    // in range
    let r = store.apply_edit_in_place(
        "a1",
        StackEdit::EditMessageInCache { idx: 0, new_text: "three".to_string() },
    );
    assert_eq!(r, Ok(()));
    assert_eq!(store.get("a1").unwrap().get(0).unwrap().content, "three");
}

#[test]
fn make_edit_out_of_range_never_corrupts() {
    let mut stack = stack_of(&[(MessageRole::User, "a"), (MessageRole::User, "b")]);
    let r = StackEdit::RemoveMessageInCache { idx: 2 }.make_edit(&mut stack);
    assert_eq!(r, Err(EditError::IndexOutOfRange));
    assert_eq!(stack.len(), 2);
    let r = StackEdit::EditMessageInCache { idx: 9, new_text: "x".to_string() }
        .make_edit(&mut stack);
    assert_eq!(r, Err(EditError::IndexOutOfRange));
    assert_eq!(stack.get(0).unwrap().content, "a");
    assert_eq!(stack.get(1).unwrap().content, "b");
}

#[test]
fn make_edit_keeps_role_on_modify() {
    let mut stack = stack_of(&[(MessageRole::Assistant, "old")]);
    let r = StackEdit::EditMessageInCache { idx: 0, new_text: "new".to_string() }
        .make_edit(&mut stack);
    assert_eq!(r, Ok(()));
    let m = stack.get(0).unwrap();
    assert_eq!(m.role, MessageRole::Assistant);
    assert_eq!(m.content, "new");
}

#[test]
fn trigger_selects_cache_sensitive_messages() {
    let listener = UiUpdatesListener::new(EditQueue::new(), TranscriptStore::new());
    for kind in [
        EnvRequestKind::PushToCache,
        EnvRequestKind::GetCompletion,
        EnvRequestKind::GetAgentState,
        EnvRequestKind::GetCompletionStreamHandle,
    ] {
        assert!(listener.trigger(&EnvMessage::Request(kind)).is_some());
    }
    assert!(listener.trigger(&EnvMessage::Request(EnvRequestKind::Other)).is_none());
    assert!(listener
        .trigger(&EnvMessage::Response(EnvNotification::AgentStateUpdate {
            agent_id: "a1".to_string(),
            cache: MessageStack::new(),
        }))
        .is_some());
    assert!(listener
        .trigger(&EnvMessage::Response(EnvNotification::Other))
        .is_none());
    assert!(listener.trigger(&EnvMessage::Other).is_none());
}

#[test]
fn method_refuses_incorrect_trigger() {
    let mut listener = UiUpdatesListener::new(EditQueue::new(), TranscriptStore::new());
    let mut registry = TranscriptStore::new();
    let r = listener.method(EnvMessage::Other, &mut registry);
    assert_eq!(r.unwrap_err(), ListenerError::IncorrectTrigger);
    let r = listener.method(EnvMessage::Request(EnvRequestKind::Other), &mut registry);
    assert_eq!(r.unwrap_err(), ListenerError::IncorrectTrigger);
}

#[test]
fn handler_warms_snapshots_from_agent_list() {
    let handler = UiListenerHandler::new(vec![
        ("a1".to_string(), stack_of(&[(MessageRole::User, "x")])),
        ("a2".to_string(), MessageStack::new()),
    ]);
    assert_eq!(handler.read_transcript("a1").unwrap().len(), 1);
    assert_eq!(handler.read_transcript("a2").unwrap().len(), 0);
    assert!(handler.read_transcript("a3").is_none());
    assert_eq!(
        handler.get_state_of_agent("a1").unwrap().get(0).unwrap().content,
        "x"
    );
}

#[test]
fn duplicate_agent_ids_keep_the_later_transcript() {
    let handler = UiListenerHandler::new(vec![
        ("a1".to_string(), stack_of(&[(MessageRole::User, "first")])),
        ("a1".to_string(), stack_of(&[(MessageRole::User, "second")])),
    ]);
    let snap = handler.read_transcript("a1").unwrap();
    assert_eq!(snap.len(), 1);
    assert_eq!(snap.get(0).unwrap().content, "second");
}

#[test]
fn interleaved_edits_for_two_agents_reconcile_independently() {
    let mut handler = UiListenerHandler::new(vec![
        ("a1".to_string(), MessageStack::new()),
        ("a2".to_string(), MessageStack::new()),
    ]);
    let mut registry = TranscriptStore::new();
    registry.set("a1".to_string(), MessageStack::new());
    registry.set("a2".to_string(), MessageStack::new());

    handler.submit_append("a1".to_string(), Message::new_user("one")).unwrap();
    handler.submit_append("a2".to_string(), Message::new_user("two")).unwrap();
    handler.submit_append("a1".to_string(), Message::new_user("three")).unwrap();

    handler
        .handle_env_message(
            EnvMessage::Request(EnvRequestKind::GetCompletionStreamHandle),
            &mut registry,
        )
        .unwrap();
    let a1 = registry.get("a1").unwrap();
    assert_eq!(a1.len(), 2);
    assert_eq!(a1.get(0).unwrap().content, "one");
    assert_eq!(a1.get(1).unwrap().content, "three");
    let a2 = registry.get("a2").unwrap();
    assert_eq!(a2.len(), 1);
    assert_eq!(a2.get(0).unwrap().content, "two");
}
