use dshns::domain::{AssistantToolCall, ToolFunctionCall};
use dshns::stream::{sse_payload, StreamAccumulator, ToolCallDelta};

#[test]
fn should_accumulate_tool_call_delta_shape() {
    let call = AssistantToolCall {
        id: "call_1".to_string(),
        kind: "function".to_string(),
        function: ToolFunctionCall {
            name: "read_file".to_string(),
            arguments: "{\"path\":\"a.txt\"}".to_string(),
        },
    };
    assert_eq!(call.function.name, "read_file");
    assert!(call.function.arguments.contains("a.txt"));
}

#[test]
fn lines_wait_for_their_line_feed() {
    let mut acc = StreamAccumulator::new();
    assert!(acc.take_lines("data: {\"a\"").is_empty());
    let lines = acc.take_lines(":1}\r\ndata: [DONE]\n\npartial");
    assert_eq!(lines, vec!["data: {\"a\":1}\r".to_string(), "data: [DONE]".to_string(), "".to_string()]);
    assert_eq!(acc.buffer(), "partial");
}

#[test]
fn payloads_of_event_lines() {
    assert_eq!(sse_payload("  data: {\"x\":1} \r"), Some("{\"x\":1}".to_string()));
    assert_eq!(sse_payload("data:data: y"), Some("y".to_string()));
    assert_eq!(sse_payload("data: [DONE]"), None);
    assert_eq!(sse_payload("data:   "), None);
    assert_eq!(sse_payload(": comment"), None);
}

#[test]
fn fragments_add_up_to_a_response() {
    let mut acc = StreamAccumulator::new();
    acc.apply_text(Some("Hel"), None);
    acc.apply_text(Some("lo"), Some("think"));
    acc.apply_usage(Some(10), None);
    acc.apply_usage(None, Some(4));
    acc.apply_tool_delta(ToolCallDelta {
        index: Some(1),
        id: Some("c2".to_string()),
        kind: None,
        name: Some("read_".to_string()),
        arguments: Some("{\"p\"".to_string()),
    });
    acc.apply_tool_delta(ToolCallDelta {
        index: Some(0),
        id: Some("c1".to_string()),
        kind: Some("function".to_string()),
        name: Some("list_dir".to_string()),
        arguments: None,
    });
    acc.apply_tool_delta(ToolCallDelta {
        index: Some(1),
        id: None,
        kind: None,
        name: Some("file".to_string()),
        arguments: Some(":1}".to_string()),
    });
    let res = acc.finish();
    assert_eq!(res.content, "Hello");
    assert_eq!(res.reasoning_content, Some("think".to_string()));
    assert_eq!(res.input_tokens, 10);
    assert_eq!(res.output_tokens, 4);
    assert_eq!(res.tool_calls.len(), 2);
    assert_eq!(res.tool_calls[0].id, "c1");
    assert_eq!(res.tool_calls[1].id, "c2");
    assert_eq!(res.tool_calls[1].kind, "function");
    assert_eq!(res.tool_calls[1].function.name, "read_file");
    assert_eq!(res.tool_calls[1].function.arguments, "{\"p\":1}");
    assert!(!res.stream_fallback);
}

#[test]
fn missing_index_opens_a_new_call() {
    let mut acc = StreamAccumulator::new();
    acc.apply_tool_delta(ToolCallDelta { index: None, id: Some("a".to_string()), kind: None, name: None, arguments: None });
    acc.apply_tool_delta(ToolCallDelta { index: None, id: Some("b".to_string()), kind: None, name: None, arguments: None });
    let res = acc.finish();
    assert_eq!(res.tool_calls.len(), 2);
    assert_eq!(res.reasoning_content, None);
    assert_eq!(res.tool_calls[0].id, "a");
}
