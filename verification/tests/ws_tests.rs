use espx_ui::ws::{
    AssistantMessage, StreamAccumulator, UserMessage, WsError, WsHxTrigger, WsRequest,
    WsRequestHandler,
};

#[test]
fn trigger_name_yields_agent_id() {
    let t = WsHxTrigger::try_from_trigger_and_name(
        "user-input-form".to_string(),
        "a1-agent-form".to_string(),
    )
    .unwrap();
    assert_eq!(t.agent_id, "a1");
    let t = WsHxTrigger::try_from_trigger_and_name(
        "user-input-form".to_string(),
        "my-agent-agent-form".to_string(),
    )
    .unwrap();
    assert_eq!(t.agent_id, "my-agent");
}

#[test]
fn trigger_rejects_other_elements_and_names() {
    assert!(WsHxTrigger::try_from_trigger_and_name(
        "sidebar".to_string(),
        "a1-agent-form".to_string()
    )
    .is_none());
    assert!(WsHxTrigger::try_from_trigger_and_name(
        "user-input-form".to_string(),
        "a1-other-form".to_string()
    )
    .is_none());
    assert!(WsHxTrigger::try_from_trigger_and_name(
        "user-input-form".to_string(),
        "".to_string()
    )
    .is_none());
}

#[test]
fn frame_decodes_into_request_and_trigger() {
    let text = "{\"HEADERS\":{\"HX-Trigger\":\"user-input-form\",\
                 \"HX-Trigger-Name\":\"a1-agent-form\"},\"user_input\":\"hello\"}";
    let handler = WsRequestHandler::try_from_text(text).unwrap();
    assert_eq!(handler.trigger.agent_id, "a1");
    match handler.req {
        WsRequest::PromptAgent { user_input } => assert_eq!(user_input, "hello"),
        other => panic!("expected a prompt, got {:?}", other),
    }
}

#[test]
fn frame_errors_name_what_is_missing() {
    assert_eq!(
        WsRequestHandler::try_from_text("not json").unwrap_err(),
        WsError::InvalidJson
    );
    assert_eq!(
        WsRequestHandler::try_from_text("{\"user_input\":\"hi\"}").unwrap_err(),
        WsError::MissingHeaders
    );
    assert_eq!(
        WsRequestHandler::try_from_text("{\"HEADERS\":{}}").unwrap_err(),
        WsError::MissingTrigger
    );
    assert_eq!(
        WsRequestHandler::try_from_text(
            "{\"HEADERS\":{\"HX-Trigger\":\"user-input-form\"}}"
        )
        .unwrap_err(),
        WsError::MissingTrigger
    );
    assert_eq!(
        WsRequestHandler::try_from_text(
            "{\"HEADERS\":{\"HX-Trigger\":\"sidebar\",\"HX-Trigger-Name\":\"x\"}}"
        )
        .unwrap_err(),
        WsError::UnrecognizedTrigger
    );
    assert_eq!(
        WsRequestHandler::try_from_text(
            "{\"HEADERS\":{\"HX-Trigger\":\"user-input-form\",\
             \"HX-Trigger-Name\":\"a1-agent-form\"}}"
        )
        .unwrap_err(),
        WsError::NoUserInputField
    );
}

#[test]
fn user_message_renders_and_trims() {
    let req = WsRequest::PromptAgent { user_input: "hi there".to_string() };
    let m = UserMessage::try_from(&req).unwrap();
    assert_eq!(
        m.content,
        markdown::to_html("hi there").trim_matches('\n')
    );
    assert!(m.content.contains("hi there"));
    assert_eq!(
        UserMessage::try_from(&WsRequest::Empty).unwrap_err(),
        WsError::WrongRequestType
    );
}

#[test]
fn assistant_message_compiles_markdown() {
    let m = AssistantMessage::from("some **bold** text");
    assert!(m.content.contains("<strong>"));
    assert_eq!(m.content, markdown::to_html("some **bold** text"));
}

#[test]
fn stream_accumulator_grows_token_by_token() {
    let mut acc = StreamAccumulator::new();
    acc.push_token("he");
    acc.push_token("llo ");
    acc.push_token("world");
    let m = acc.current_message();
    assert_eq!(m.content, markdown::to_html("hello world"));
    assert_eq!(m.content, AssistantMessage::from("hello world").content);
}
