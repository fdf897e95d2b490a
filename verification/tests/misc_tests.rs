use dshns::cli::{parse_command, parse_mode, split_words, AppMode, CliCommand};
use dshns::domain::{ApprovalMode, MessageRole, SessionStatus};
use dshns::events::{latest_of_type, stream_chunk_text, EventType};
use dshns::mcp::{
    capabilities_url, connected_state, enabled_servers, find_server, tool_url, upsert_state,
    McpServerConfig,
};
use dshns::skill::{
    check_skill_identifier, find_skill, parse_skill_descriptor, render_skill_summary,
    PromptAssembler, SkillDescriptor, SkillManager,
};

fn server(id: &str, enabled: bool) -> McpServerConfig {
    McpServerConfig {
        id: id.to_string(),
        name: id.to_string(),
        base_url: "http://localhost:8080//".to_string(),
        enabled,
        capabilities_endpoint: None,
        tools_endpoint: None,
        api_key_env: None,
    }
}

#[test]
fn should_discover_servers_from_file() {
    let servers = enabled_servers(&vec![server("demo", true)]);
    assert_eq!(servers.len(), 1);
    assert_eq!(servers[0].id, "demo");
}

#[test]
fn mcp_endpoints_and_states() {
    let servers = enabled_servers(&vec![server("a", false), server("b", true)]);
    assert_eq!(servers.len(), 1);
    assert_eq!(find_server(&servers, "a").unwrap_err(), "未找到 MCP 服务端：a");
    assert_eq!(capabilities_url(&servers[0]), "http://localhost:8080/capabilities");
    assert_eq!(tool_url(&servers[0], "t"), "http://localhost:8080/tools/t");
    let mut states = Vec::new();
    upsert_state(&mut states, connected_state("b", "{}".to_string(), "T1".to_string()));
    upsert_state(&mut states, connected_state("b", "[]".to_string(), "T2".to_string()));
    assert_eq!(states.len(), 1);
    assert_eq!(states[0].capabilities_json, "[]");
    assert_eq!(states[0].status, "connected");
}

#[test]
fn skill_descriptors_from_front_matter() {
    let d = parse_skill_descriptor(
        "s/demo/SKILL.md",
        Some("demo"),
        "---\nname: demo-skill\ndescription: 测试技能\n---\n# Demo Skill\n正文",
    );
    assert_eq!(d.name, "demo-skill");
    assert_eq!(d.description, "测试技能");
    let plain = parse_skill_descriptor("x/SKILL.md", None, "# nothing");
    assert_eq!(plain.name, "unknown-skill");
    assert_eq!(plain.description, "未提供描述");
    let summary = render_skill_summary(&vec![d]);
    assert_eq!(summary, "- demo-skill：测试技能（s/demo/SKILL.md）");
    assert_eq!(render_skill_summary(&vec![]), "当前未扫描到可用 Skill。");
}

#[test]
fn should_skip_oversized_skill_and_return_chinese_error() {
    let manager = SkillManager::with_limits(vec!["target/skills".to_string()], 16);
    let error = manager
        .check_skill_file("target/skills/oversized/SKILL.md", Some("SKILL.md"), 80)
        .expect_err("超限 Skill 应返回错误");
    assert!(error.contains("超过大小限制"));
    assert!(manager.check_skill_file("a/README.md", Some("README.md"), 1).is_err());
    assert!(manager.check_skill_file("a/SKILL.md", Some("SKILL.md"), 16).is_ok());
}

#[test]
fn skill_identifiers_and_prompt() {
    assert_eq!(check_skill_identifier("  demo ").unwrap(), "demo");
    assert_eq!(check_skill_identifier("   ").unwrap_err(), "Skill 标识不能为空");
    let skills = vec![SkillDescriptor { name: "a".to_string(), description: "d".to_string(), path: "p".to_string() }];
    assert_eq!(find_skill(&skills, "a"), Ok(0));
    assert_eq!(find_skill(&skills, "b").unwrap_err(), "未找到目标 Skill：b");
    let assembler = PromptAssembler::new("/w".to_string(), SkillManager::new(vec![]));
    assert_eq!(
        assembler.assemble_from(None, Some(" ws "), "sk\n"),
        "## 全局约束\n未找到全局 AGENTS.md。\n\n## 工作区约束\nws\n\n## 可用 Skill 摘要\nsk\n"
    );
}

#[test]
fn commands_are_parsed_from_words() {
    assert_eq!(split_words("  /session  use   demo \t"), vec!["/session", "use", "demo"]);
    assert!(matches!(parse_command("/help"), CliCommand::Help));
    assert!(matches!(parse_command("/sessions"), CliCommand::SessionList));
    assert!(matches!(parse_command("/session list"), CliCommand::SessionList));
    assert!(matches!(parse_command("/create demo"), CliCommand::Create(ref n) if n == "demo"));
    assert!(matches!(parse_command("/tool read tool:call_1"), CliCommand::ToolRead(ref h) if h == "tool:call_1"));
    assert!(matches!(parse_command("/create"), CliCommand::Unknown));
    assert!(matches!(parse_command("/quit now"), CliCommand::Unknown));
}

#[test]
fn program_mode_from_arguments() {
    assert!(matches!(parse_mode(&vec![]), AppMode::Cli));
    let args: Vec<String> = ["serve", "--port", "9000"].iter().map(|s| s.to_string()).collect();
    match parse_mode(&args) {
        AppMode::Serve { host, port } => {
            assert_eq!(host, "127.0.0.1");
            assert_eq!(port, 9000);
        }
        _ => panic!("expected serve"),
    }
    let args: Vec<String> = ["serve", "--host", "0.0.0.0", "--port", "x"].iter().map(|s| s.to_string()).collect();
    match parse_mode(&args) {
        AppMode::Serve { host, port } => {
            assert_eq!(host, "0.0.0.0");
            assert_eq!(port, 8080);
        }
        _ => panic!("expected serve"),
    }
}

#[test]
fn events_and_names() {
    assert_eq!(
        latest_of_type(&vec![EventType::TokenUsageUpdated, EventType::SessionStatusChanged, EventType::TokenUsageUpdated], EventType::TokenUsageUpdated),
        Some(2)
    );
    assert_eq!(latest_of_type(&vec![EventType::SessionStatusChanged], EventType::TokenUsageUpdated), None);
    assert_eq!(stream_chunk_text(&"a".repeat(501)), format!("{}...", "a".repeat(500)));
    assert_eq!(EventType::ApprovalResolved.as_str(), "ApprovalResolved");
    assert_eq!(ApprovalMode::from_str("FullAccess"), ApprovalMode::FullAccess);
    assert_eq!(ApprovalMode::from_str("x"), ApprovalMode::AskUser);
    assert_eq!(SessionStatus::from_str("running"), SessionStatus::Running);
    assert_eq!(SessionStatus::Cancelled.as_str(), "cancelled");
    assert_eq!(MessageRole::from_str("tool"), MessageRole::Tool);
}

#[test]
fn skills_are_sorted_by_name_keeping_the_order_of_equal_names() {
    let d = |name: &str, path: &str| dshns::skill::SkillDescriptor {
        name: name.to_string(),
        description: String::new(),
        path: path.to_string(),
    };
    let sorted = dshns::skill::sort_skills_by_name(vec![
        d("beta", "1"),
        d("alpha", "2"),
        d("Zed", "3"),
        d("beta", "4"),
        d("alp", "5"),
        d("ä", "6"),
    ]);
    let got: Vec<(String, String)> = sorted.into_iter().map(|s| (s.name, s.path)).collect();
    let want: Vec<(String, String)> = [("Zed", "3"), ("alp", "5"), ("alpha", "2"), ("beta", "1"), ("beta", "4"), ("ä", "6")]
        .iter()
        .map(|(n, p)| (n.to_string(), p.to_string()))
        .collect();
    assert_eq!(got, want);
    assert!(dshns::skill::sort_skills_by_name(vec![]).is_empty());
}

#[test]
fn text_order_follows_str_order() {
    for (a, b) in [("a", "b"), ("ab", "abc"), ("", "a"), ("Z", "a"), ("z", "ä"), ("abc", "abd")] {
        assert!(dshns::text::str_before(a, b));
        assert!(!dshns::text::str_before(b, a));
        assert_eq!(dshns::text::str_before(a, b), a < b);
    }
    assert!(!dshns::text::str_before("same", "same"));
}

#[test]
fn settings_values_pick_the_first_present() {
    let keep = "keep".to_string();
    assert_eq!(dshns::settings::pick_text(None, Some("b".to_string()), &keep), "b");
    assert_eq!(dshns::settings::pick_text(Some(String::new()), Some("b".to_string()), &keep), "keep");
    assert_eq!(dshns::settings::pick_text(None, None, &keep), "keep");
    assert_eq!(dshns::settings::first_bool(Err("bad".to_string()), Ok(Some(true))), Some(true));
    assert_eq!(dshns::settings::first_bool(Ok(None), Ok(None)), None);
    assert_eq!(dshns::settings::first_uint(Ok(Some(3)), Ok(Some(4))), Some(3));
    assert!(!dshns::settings::or_keep_bool(Some(false), true));
    assert_eq!(dshns::settings::or_keep_usize(None, 7), 7);
    assert_eq!(dshns::settings::or_keep_usize(Some(9), 7), 9);
}
