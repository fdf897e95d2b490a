use dshns::approval::{decide_user_reply, ApprovalCapabilities, ApprovalManager};
use dshns::domain::ApprovalMode;
use dshns::records::ToolRiskLevel;
use dshns::registry::ToolDefinition;

fn build_definition(name: &str, risk_level: ToolRiskLevel) -> ToolDefinition {
    ToolDefinition {
        name: name.to_string(),
        description: "测试工具".to_string(),
        parameters_schema: "{\"type\":\"object\"}".to_string(),
        risk_level,
        visible_to_model: true,
    }
}

#[test]
fn should_block_write_tool_when_file_write_disabled() {
    let manager = ApprovalManager::new(
        ApprovalMode::FullAccess,
        ApprovalCapabilities::new(true, true, false, true),
    );
    let decision = manager
        .approve(&build_definition("write_file", ToolRiskLevel::Write))
        .expect("审批失败");

    assert!(!decision.approved);
    assert!(decision.reason.contains("文件写入能力"));
}

#[test]
fn should_block_network_tool_when_network_disabled() {
    let manager = ApprovalManager::new(
        ApprovalMode::FullAccess,
        ApprovalCapabilities::new(false, true, true, true),
    );
    let decision = manager
        .approve(&build_definition("web_search", ToolRiskLevel::Network))
        .expect("审批失败");

    assert!(!decision.approved);
    assert!(decision.reason.contains("关闭网络能力"));
}

#[test]
fn should_auto_approve_readonly_tool_in_safe_mode() {
    let manager = ApprovalManager::new(
        ApprovalMode::AutoApproveSafe,
        ApprovalCapabilities::new(true, false, false, false),
    );
    let decision = manager
        .approve(&build_definition("read_file", ToolRiskLevel::ReadOnly))
        .expect("审批失败");

    assert!(decision.approved);
    assert!(decision.reason.contains("自动放行"));
}

#[test]
fn safe_mode_refuses_risky_tools_by_name() {
    let manager = ApprovalManager::new(
        ApprovalMode::AutoApproveSafe,
        ApprovalCapabilities::new(true, true, true, true),
    );
    let decision = manager
        .approve(&build_definition("run_shell", ToolRiskLevel::Execute))
        .expect("审批失败");
    assert!(!decision.approved);
    assert_eq!(
        decision.reason,
        "当前为 AutoApproveSafe 模式，工具 run_shell 属于高风险操作，已阻止执行。"
    );
}

#[test]
fn full_access_approves_with_fixed_reason() {
    let manager = ApprovalManager::new(
        ApprovalMode::FullAccess,
        ApprovalCapabilities::new(true, true, true, true),
    );
    let decision = manager.approve(&build_definition("x", ToolRiskLevel::Agent)).unwrap();
    assert!(decision.approved);
    assert_eq!(decision.reason, "当前为 FullAccess 模式，已自动放行。");
}

#[test]
fn ask_user_mode_defers_to_the_user_unless_blocked() {
    let manager = ApprovalManager::new(
        ApprovalMode::AskUser,
        ApprovalCapabilities::new(true, false, true, true),
    );
    assert!(manager.approve(&build_definition("read_file", ToolRiskLevel::ReadOnly)).is_none());
    let blocked = manager.approve(&build_definition("run_shell", ToolRiskLevel::Execute)).unwrap();
    assert!(!blocked.approved);
    assert_eq!(blocked.reason, "当前配置已关闭 Shell 执行能力，工具 run_shell 暂不可用。");
    assert_eq!(manager.mode(), ApprovalMode::AskUser);
}

#[test]
fn plugin_switch_blocks_agent_tools() {
    let manager = ApprovalManager::new(
        ApprovalMode::FullAccess,
        ApprovalCapabilities::new(true, true, true, false),
    );
    let reason = manager
        .blocked_by_capability(&build_definition("agent_open", ToolRiskLevel::Agent))
        .unwrap();
    assert_eq!(reason, "当前配置已关闭扩展代理能力，工具 agent_open 暂不可用。");
}

#[test]
fn user_reply_yes_variants_approve() {
    assert!(decide_user_reply("y").approved);
    assert!(decide_user_reply("  YES \n").approved);
    assert!(decide_user_reply("Yes").approved);
    let no = decide_user_reply("n");
    assert!(!no.approved);
    assert_eq!(no.reason, "用户拒绝执行该工具。");
    assert_eq!(decide_user_reply("y").reason, "用户已明确允许执行。");
    assert!(!decide_user_reply("yess").approved);
}
