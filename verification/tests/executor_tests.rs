use dshns::approval::{ApprovalCapabilities, ApprovalManager};
use dshns::domain::{ApprovalMode, AssistantToolCall, ToolFunctionCall};
use dshns::executor::{classify_failure, tool_result_file_name, ExecutionPlan, ToolExecutor};
use dshns::records::{ToolFailureType, ToolProjectionType};
use dshns::registry::ToolRegistry;

fn executor(mode: ApprovalMode, limit: usize) -> ToolExecutor {
    ToolExecutor::new(
        ToolRegistry::with_defaults(),
        ApprovalManager::new(mode, ApprovalCapabilities::new(true, true, false, true)),
        "/w".to_string(),
        "powershell".to_string(),
        limit,
    )
}

fn call(name: &str, args: &str) -> AssistantToolCall {
    AssistantToolCall {
        id: "call_1".to_string(),
        kind: "function".to_string(),
        function: ToolFunctionCall { name: name.to_string(), arguments: args.to_string() },
    }
}

#[test]
fn bad_json_and_unknown_tools_end_the_call() {
    let ex = executor(ApprovalMode::FullAccess, 10);
    match ex.plan(&call("read_file", "{not json")) {
        ExecutionPlan::Done(r) => {
            assert!(!r.success);
            assert_eq!(r.failure_type, Some(ToolFailureType::InvalidArgs));
            assert!(r.error_message.starts_with("工具参数不是合法 JSON："));
            assert_eq!(r.projection_content, r.error_message);
        }
        _ => panic!("expected done"),
    }
    match ex.plan(&call("nope", "{}")) {
        ExecutionPlan::Done(r) => {
            assert_eq!(r.error_message, "未注册的工具：nope");
            assert_eq!(r.failure_type, Some(ToolFailureType::ExecError));
        }
        _ => panic!("expected done"),
    }
}

#[test]
fn approval_decides_before_running() {
    let ex = executor(ApprovalMode::FullAccess, 10);
    assert!(matches!(ex.plan(&call("read_file", "{\"path\":\"a\"}")), ExecutionPlan::Run));
    match ex.plan(&call("write_file", "{}")) {
        ExecutionPlan::Done(r) => {
            assert_eq!(r.failure_type, Some(ToolFailureType::ApprovalDenied));
            assert!(r.error_message.contains("文件写入能力"));
        }
        _ => panic!("expected denial"),
    }
    let ask = executor(ApprovalMode::AskUser, 10);
    let c = call("read_file", "{}");
    assert!(matches!(ask.plan(&c), ExecutionPlan::AskUser));
    assert!(matches!(ask.after_user_reply(&c, "yes"), ExecutionPlan::Run));
    match ask.after_user_reply(&c, "no") {
        ExecutionPlan::Done(r) => assert_eq!(r.error_message, "用户拒绝执行该工具。"),
        _ => panic!("expected denial"),
    }
}

#[test]
fn receipts_project_long_output() {
    let ex = executor(ApprovalMode::FullAccess, 5);
    let c = call("read_file", "{}");
    let r = ex.finish(&c, Ok("abcdefgh".to_string()));
    assert!(r.success);
    assert_eq!(r.projection_content, "abcde\n\n输出过长，完整结果已外置保存，请根据句柄按需读取。");
    let e = ex.finish(&c, Err("缺少 path".to_string()));
    assert_eq!(e.failure_type, Some(ToolFailureType::InvalidArgs));
    assert_eq!(classify_failure("io error"), ToolFailureType::ExecError);
    assert_eq!(classify_failure("replace_range 行号非法"), ToolFailureType::InvalidArgs);
}

#[test]
fn result_records_describe_the_result() {
    let ex = executor(ApprovalMode::FullAccess, 5);
    let c = call("read_file", "{}");
    let short = ex.finish(&c, Ok("abc".to_string()));
    let rec = ex.result_record(&short, String::new(), "T".to_string());
    assert_eq!(rec.handle, "tool:call_1");
    assert_eq!(rec.projection_type, ToolProjectionType::InlineFull);
    assert_eq!(rec.projection_content, "abc");
    assert_eq!(rec.summary, "工具 read_file 执行成功");
    assert_eq!(rec.char_count, 3);
    assert!(!rec.externalized);

    let medium = ex.finish(&c, Ok("0123456789".to_string()));
    assert!(ex.externalizes(&medium));
    let rec = ex.result_record(&medium, "/s/tool_results/call_1.txt".to_string(), "T".to_string());
    assert_eq!(rec.projection_type, ToolProjectionType::SummaryWithPreview);
    assert_eq!(
        rec.projection_content,
        format!("{}\n\npreview_head:\n0123456789\n\npreview_tail:\n0123456789", medium.projection_content)
    );
    assert!(rec.truncated);

    let long = ex.finish(&c, Ok("中".repeat(30)));
    let rec = ex.result_record(&long, "f".to_string(), "T".to_string());
    assert_eq!(rec.projection_type, ToolProjectionType::SummaryOnly);
    assert_eq!(rec.projection_content, "中中中中中");
    assert_eq!(rec.byte_count, 90);
    assert_eq!(rec.char_count, 30);

    let failed = ex.finish(&c, Err("boom".to_string()));
    let rec = ex.result_record(&failed, String::new(), "T".to_string());
    assert_eq!(rec.summary, "工具 read_file 执行失败：boom");
    let call_rec = ex.call_record(&failed, "s", 3, "{}", "A".to_string(), "B".to_string());
    assert_eq!(call_rec.status, "failed");
    assert_eq!(call_rec.round_no, 3);
    assert_eq!(tool_result_file_name("call_1"), "call_1.txt");
}
