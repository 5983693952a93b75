use ort_genai::chat::{
    plan_tool_call, ChatMessage, ChoiceDelta, Conversation, FinishReason, ToolCall, ToolCallDelta,
    ToolPlan, ToolTurn, TurnOutcome, PLAIN_SYSTEM_PROMPT, TOOL_SYSTEM_PROMPT,
};
use ort_genai::model_manager::needs_inference_model_fix;
use ort_genai::web_search::search_url;

fn text(s: &str) -> Option<String> {
    Some(s.to_string())
}

fn delta(id: Option<&str>, name: Option<&str>, args: Option<&str>) -> ToolCallDelta {
    ToolCallDelta {
        id: id.map(str::to_string),
        name: name.map(str::to_string),
        arguments: args.map(str::to_string),
    }
}

#[test]
fn plain_text_turn_finishes_without_tools() {
    let mut turn = ToolTurn::new();
    let a = turn.on_chunk(Some(ChoiceDelta { content: text("Hel"), tool_calls: None, finish_reason: None }));
    assert_eq!(a.text.as_deref(), Some("Hel"));
    assert!(!a.end_exchange);
    let b = turn.on_chunk(None);
    assert!(b.text.is_none() && !b.end_exchange);
    let c = turn.on_chunk(Some(ChoiceDelta { content: text("lo"), tool_calls: None, finish_reason: None }));
    assert_eq!(c.text.as_deref(), Some("lo"));
    assert!(matches!(turn.finish(), TurnOutcome::Finished));
}

#[test]
fn stop_ends_the_exchange() {
    let mut turn = ToolTurn::new();
    let r = turn.on_chunk(Some(ChoiceDelta {
        content: text("done"),
        tool_calls: None,
        finish_reason: Some(FinishReason::Stop),
    }));
    assert!(r.end_exchange);
    assert_eq!(r.text.as_deref(), Some("done"));
}

#[test]
fn fragments_are_joined_into_one_call() {
    let mut turn = ToolTurn::new();
    turn.on_chunk(Some(ChoiceDelta {
        content: None,
        tool_calls: Some(vec![delta(Some("call_"), Some("web_"), None)]),
        finish_reason: None,
    }));
    turn.on_chunk(Some(ChoiceDelta {
        content: None,
        tool_calls: Some(vec![delta(Some("1"), Some("search"), Some("{\"query\":")), delta(None, None, Some("\"rust\"}"))]),
        finish_reason: None,
    }));
    let r = turn.on_chunk(Some(ChoiceDelta {
        content: None,
        tool_calls: None,
        finish_reason: Some(FinishReason::ToolCalls),
    }));
    assert!(!r.end_exchange);
    match turn.finish() {
        TurnOutcome::RunTools(calls) => {
            assert_eq!(calls.len(), 1);
            assert_eq!(calls[0].id, "call_1");
            assert_eq!(calls[0].name, "web_search");
            assert_eq!(calls[0].arguments, "{\"query\":\"rust\"}");
        }
        TurnOutcome::Finished => panic!("a tool call was requested"),
    }
}

#[test]
fn later_calls_keep_earlier_fragments() {
    let mut turn = ToolTurn::new();
    turn.on_chunk(Some(ChoiceDelta {
        content: None,
        tool_calls: Some(vec![delta(Some("a"), Some("x"), Some("1"))]),
        finish_reason: Some(FinishReason::ToolCalls),
    }));
    turn.on_chunk(Some(ChoiceDelta {
        content: None,
        tool_calls: Some(vec![delta(Some("b"), Some("y"), Some("2"))]),
        finish_reason: Some(FinishReason::ToolCalls),
    }));
    match turn.finish() {
        TurnOutcome::RunTools(calls) => {
            assert_eq!(calls.len(), 2);
            assert_eq!((calls[0].id.as_str(), calls[0].name.as_str(), calls[0].arguments.as_str()), ("a", "x", "1"));
            assert_eq!((calls[1].id.as_str(), calls[1].name.as_str(), calls[1].arguments.as_str()), ("ab", "xy", "12"));
        }
        TurnOutcome::Finished => panic!("two tool calls were requested"),
    }
}

fn call(name: &str, args: &str) -> ToolCall {
    ToolCall { id: "id".to_string(), name: name.to_string(), arguments: args.to_string() }
}

#[test]
fn web_search_is_planned_with_its_query() {
    match plan_tool_call(&call("web_search", "{\"query\": \"weather in Paris\"}")) {
        ToolPlan::WebSearch { query } => assert_eq!(query, "weather in Paris"),
        other => panic!("unexpected plan {other:?}"),
    }
}

#[test]
fn web_search_without_query_is_malformed() {
    assert!(matches!(plan_tool_call(&call("web_search", "{\"q\": \"x\"}")), ToolPlan::MalformedArguments));
    assert!(matches!(plan_tool_call(&call("web_search", "not json")), ToolPlan::MalformedArguments));
    assert!(matches!(plan_tool_call(&call("web_search", "{\"query\": 3}")), ToolPlan::MalformedArguments));
}

#[test]
fn unknown_tool_is_answered_with_an_error() {
    match plan_tool_call(&call("calculator", "{}")) {
        ToolPlan::Unknown { error } => assert_eq!(error, "Unknown function: calculator"),
        other => panic!("unexpected plan {other:?}"),
    }
}

#[test]
fn conversation_records_tool_rounds_in_order() {
    let mut c = Conversation::new(TOOL_SYSTEM_PROMPT, "What is new?".to_string());
    assert_eq!(c.messages().len(), 2);
    assert!(matches!(&c.messages()[0], ChatMessage::System(s) if s == TOOL_SYSTEM_PROMPT));
    assert!(matches!(&c.messages()[1], ChatMessage::User(s) if s == "What is new?"));
    let calls = vec![
        ToolCall { id: "c1".to_string(), name: "web_search".to_string(), arguments: "{}".to_string() },
        ToolCall { id: "c2".to_string(), name: "other".to_string(), arguments: "{}".to_string() },
    ];
    c.record_tool_round(calls, vec!["r1".to_string(), "r2".to_string()]);
    let m = c.messages();
    assert_eq!(m.len(), 5);
    assert!(matches!(&m[2], ChatMessage::AssistantToolCalls(v) if v.len() == 2 && v[1].id == "c2"));
    assert!(matches!(&m[3], ChatMessage::Tool { tool_call_id, content } if tool_call_id == "c1" && content == "r1"));
    assert!(matches!(&m[4], ChatMessage::Tool { tool_call_id, content } if tool_call_id == "c2" && content == "r2"));
    let plain = Conversation::new(PLAIN_SYSTEM_PROMPT, "hi".to_string());
    assert!(matches!(&plain.messages()[0], ChatMessage::System(s) if s == "You are a helpful assistant."));
}

#[test]
fn search_address() {
    assert_eq!(
        search_url("rust%20lang"),
        "http://localhost:8080/search?format=json&q=rust%20lang"
    );
}

#[test]
fn inference_model_fix_only_for_registered_qnn() {
    assert!(needs_inference_model_fix("QNNExecutionProvider", true));
    assert!(!needs_inference_model_fix("QNNExecutionProvider", false));
    assert!(!needs_inference_model_fix("CUDAExecutionProvider", true));
}
