use dshns::records::ToolRiskLevel;
use dshns::registry::{contains_any_keyword, is_network_tool, ToolDefinition, ToolRegistry};

fn tool_names(tools: Vec<ToolDefinition>) -> Vec<String> {
    tools.into_iter().map(|tool| tool.name).collect()
}

#[test]
fn should_filter_network_tools_when_network_disabled() {
    let registry = ToolRegistry::with_defaults();
    let names = tool_names(registry.model_tools_for_context("search rust", true, false, true, false));
    assert!(!names.iter().any(|name| name == "web_search"));
    assert!(!names.iter().any(|name| name == "fetch_url"));
    assert!(names.iter().any(|name| name == "read_file"));
}

#[test]
fn should_expose_contextual_tools_when_keywords_match() {
    let registry = ToolRegistry::with_defaults();
    let names = tool_names(registry.model_tools_for_context(
        "需要一个 subagent 做 automation cron，并用 rlm 推理机",
        true,
        true,
        true,
        false,
    ));
    assert!(names.iter().any(|name| name == "agent_open"));
    assert!(names.iter().any(|name| name == "automation_create"));
    assert!(names.iter().any(|name| name == "rlm_open"));
}

#[test]
fn should_only_expose_github_tool_with_token_and_keyword() {
    let registry = ToolRegistry::with_defaults();
    let without_token =
        tool_names(registry.model_tools_for_context("github issue", true, true, true, false));
    assert!(!without_token.iter().any(|name| name == "github_get"));

    let with_token =
        tool_names(registry.model_tools_for_context("github issue", true, true, true, true));
    assert!(with_token.iter().any(|name| name == "github_get"));
}

#[test]
fn default_registry_has_thirty_tools_in_order() {
    let registry = ToolRegistry::with_defaults();
    let names = tool_names(registry.model_tools(true));
    assert_eq!(names.len(), 30);
    assert_eq!(names[0], "read_file");
    assert_eq!(names[29], "automation_run_once");
    let without = tool_names(registry.model_tools(false));
    assert_eq!(without.len(), 29);
    assert!(!without.iter().any(|n| n == "github_get"));
}

#[test]
fn adaptive_exposure_hides_contextual_tools_without_keywords() {
    let registry = ToolRegistry::with_defaults();
    let names = tool_names(registry.model_tools_for_context("READ a file", true, true, true, true));
    assert!(!names.iter().any(|n| n == "agent_open" || n == "rlm_open" || n == "automation_create"));
    assert!(!names.iter().any(|n| n == "github_get"));
    assert!(names.iter().any(|n| n == "web_search"));
    let upper = tool_names(registry.model_tools_for_context("GITHUB PR", true, true, true, true));
    assert!(upper.iter().any(|n| n == "github_get"));
}

#[test]
fn get_and_register_replace_by_name() {
    let mut registry = ToolRegistry::with_defaults();
    let read = registry.get("read_file").unwrap();
    assert_eq!(read.risk_level, ToolRiskLevel::ReadOnly);
    assert_eq!(registry.get("nope").unwrap_err(), "未注册的工具：nope");
    registry.register(ToolDefinition {
        name: "read_file".to_string(),
        description: "changed".to_string(),
        parameters_schema: "{}".to_string(),
        risk_level: ToolRiskLevel::Write,
        visible_to_model: false,
    });
    assert_eq!(registry.get("read_file").unwrap().description, "changed");
    assert_eq!(tool_names(registry.model_tools(true)).len(), 29);
    registry.register(ToolDefinition {
        name: "extra".to_string(),
        description: "new".to_string(),
        parameters_schema: "{}".to_string(),
        risk_level: ToolRiskLevel::ReadOnly,
        visible_to_model: true,
    });
    let names = tool_names(registry.model_tools(true));
    assert_eq!(names.len(), 30);
    assert_eq!(names[29], "extra");
}

#[test]
fn keyword_and_network_helpers() {
    assert!(contains_any_keyword("abc cron", &["x", "cron"]));
    assert!(!contains_any_keyword("abc", &["x", "y"]));
    assert!(!contains_any_keyword("abc", &[]));
    assert!(is_network_tool("web_run"));
    assert!(!is_network_tool("read_file"));
}

#[test]
fn schemas_are_json_text() {
    let registry = ToolRegistry::with_defaults();
    let def = registry.get("write_file").unwrap();
    let value: serde_json::Value = serde_json::from_str(&def.parameters_schema).unwrap();
    assert_eq!(value["required"][0], "path");
    assert_eq!(def.risk_level, ToolRiskLevel::Write);
}
