use dshns::domain::{ApprovalMode, AssistantToolCall, Message, MessageRole, ToolFunctionCall};
use dshns::executor::ToolExecutionReceipt;
use dshns::records::{Session, ToolFailureType};
use dshns::turn::{
    model_context_window, remaining_context, AgentLoopRunner, ModelResponse, TurnAction,
    TurnError, TurnLimits,
};

fn session() -> Session {
    Session::new(
        "s".to_string(),
        "d".to_string(),
        "demo".to_string(),
        "p".to_string(),
        "/p".to_string(),
        "/p".to_string(),
        "deepseek-v4-flash".to_string(),
        ApprovalMode::AskUser,
        true,
        "/p/s".to_string(),
        "system".to_string(),
    )
}

fn limits(max_rounds: usize, tool_call_limit: usize) -> TurnLimits {
    TurnLimits { max_rounds, invalid_arg_retry_limit: 2, tool_failure_limit: 2, tool_call_limit }
}

fn call(id: &str) -> AssistantToolCall {
    AssistantToolCall {
        id: id.to_string(),
        kind: "function".to_string(),
        function: ToolFunctionCall { name: "read_file".to_string(), arguments: "{}".to_string() },
    }
}

fn reply(content: &str, calls: Vec<AssistantToolCall>) -> ModelResponse {
    ModelResponse {
        content: content.to_string(),
        reasoning_content: None,
        tool_calls: calls,
        input_tokens: 1,
        output_tokens: 2,
        stream_fallback: false,
    }
}

fn receipt(id: &str, success: bool, failure: Option<ToolFailureType>) -> ToolExecutionReceipt {
    ToolExecutionReceipt {
        tool_call_id: id.to_string(),
        tool_name: "read_file".to_string(),
        success,
        output: "out".to_string(),
        error_message: if success { String::new() } else { "boom".to_string() },
        projection_content: if success { "proj".to_string() } else { "boom".to_string() },
        failure_type: failure,
    }
}

#[test]
fn turn_answers_without_tools() {
    let runner = AgentLoopRunner::new(limits(3, 5));
    let s = session();
    let (mut state, act) = runner.start_turn(&s, vec![], "hello");
    assert!(matches!(act, TurnAction::CallModel(_)));
    assert_eq!(state.history.len(), 1);
    assert_eq!(state.history[0].role, MessageRole::User);
    match runner.on_model_reply(&s, &mut state, reply("done", vec![])) {
        TurnAction::Finish(o) => {
            assert_eq!(o.final_message, "done");
            assert_eq!(o.output_tokens, 2);
            assert_eq!(o.input_tokens, state.estimated_tokens_before.max(1));
        }
        _ => panic!("expected finish"),
    }
    assert_eq!(state.history.len(), 2);
    assert_eq!(state.history[1].role, MessageRole::Assistant);
}

#[test]
fn tool_calls_run_in_order_and_feed_back() {
    let runner = AgentLoopRunner::new(limits(3, 5));
    let s = session();
    let (mut state, _) = runner.start_turn(&s, vec![Message::user("old".to_string())], "hi");
    let act = runner.on_model_reply(&s, &mut state, reply("", vec![call("a"), call("b")]));
    assert!(matches!(act, TurnAction::RunTool(ref c) if c.id == "a"));
    let act = runner.on_tool_receipt(&s, &mut state, &receipt("a", true, None));
    assert!(matches!(act, TurnAction::RunTool(ref c) if c.id == "b"));
    let act = runner.on_tool_receipt(&s, &mut state, &receipt("b", false, Some(ToolFailureType::ExecError)));
    assert!(matches!(act, TurnAction::CallModel(_)));
    assert_eq!(state.rounds_started, 2);
    assert_eq!(state.tool_failures, 1);
    let n = state.history.len();
    assert_eq!(state.history[n - 2].content, "proj");
    assert_eq!(state.history[n - 1].content, "工具执行失败：boom");
    assert_eq!(state.history[n - 1].tool_call_id, Some("b".to_string()));
}

#[test]
fn limits_stop_the_turn() {
    let runner = AgentLoopRunner::new(limits(1, 1));
    let s = session();
    let (mut state, _) = runner.start_turn(&s, vec![], "hi");
    let act = runner.on_model_reply(&s, &mut state, reply("", vec![call("a"), call("b")]));
    assert!(matches!(act, TurnAction::RunTool(_)));
    let act = runner.on_tool_receipt(&s, &mut state, &receipt("a", true, None));
    match act {
        TurnAction::Fail(e) => {
            assert_eq!(e, TurnError::ToolCallLimit(1));
            assert_eq!(e.message(), "单轮工具调用次数超过上限 1");
        }
        _ => panic!("expected failure"),
    }

    let runner = AgentLoopRunner::new(limits(1, 5));
    let (mut state, _) = runner.start_turn(&s, vec![], "hi");
    runner.on_model_reply(&s, &mut state, reply("", vec![call("a")]));
    match runner.on_tool_receipt(&s, &mut state, &receipt("a", true, None)) {
        TurnAction::Fail(e) => assert_eq!(e.message(), "超过最大循环轮数 1，任务被终止"),
        _ => panic!("expected round limit"),
    }
}

#[test]
fn invalid_arguments_stop_after_the_limit() {
    let runner = AgentLoopRunner::new(limits(5, 10));
    let s = session();
    let (mut state, _) = runner.start_turn(&s, vec![], "hi");
    runner.on_model_reply(&s, &mut state, reply("", vec![call("a"), call("b")]));
    runner.on_tool_receipt(&s, &mut state, &receipt("a", false, Some(ToolFailureType::InvalidArgs)));
    match runner.on_tool_receipt(&s, &mut state, &receipt("b", false, Some(ToolFailureType::InvalidArgs))) {
        TurnAction::Fail(e) => {
            assert_eq!(e, TurnError::InvalidArgLimit(2));
            assert_eq!(e.message(), "连续非法工具参数次数达到上限 2，当前轮执行终止");
        }
        _ => panic!("expected failure"),
    }
}

#[test]
fn context_window_by_model() {
    assert_eq!(model_context_window("deepseek-v4-pro[1m]"), 1_000_000);
    assert_eq!(model_context_window("deepseek-v4-pro"), 256_000);
    assert_eq!(remaining_context("m", 1000, 10), 255_000);
    assert_eq!(remaining_context("m", 10, 300_000), 0);
}
