use dshns::records::{AgentInstance, AgentMode, AgentStatus};
use dshns::subagent::{agent_mode_from, open_level_for, SubagentManager};

#[test]
fn should_open_and_close_subagent() {
    let manager = SubagentManager::new("target/test_subagent_session".to_string());
    let mut agents: Vec<AgentInstance> = Vec::new();
    let agent = manager
        .open(
            &mut agents,
            "isolate",
            false,
            &vec!["src".to_string()],
            "{\"task\":\"demo\"}",
            None,
            Some("test_subagent_session"),
        )
        .expect("创建子 Agent 失败");
    let closed = manager.close(&mut agents, &agent.id).expect("关闭子 Agent 失败");
    assert_eq!(closed.id, agent.id);
    assert_eq!(closed.status, AgentStatus::Closed);
    assert_eq!(agent.mode, AgentMode::Isolate);
    assert_eq!(agent.level, 1);
    assert_eq!(agent.allowed_paths_json, "[\"src\"]");
    assert_eq!(agent.parent_session_id, "test_subagent_session");
}

#[test]
fn roster_limits_total_and_depth() {
    let manager = SubagentManager::new("s".to_string());
    let mut agents: Vec<AgentInstance> = Vec::new();
    let root = manager.open(&mut agents, "inherit", true, &vec![], "{}", None, None).unwrap();
    assert_eq!(root.parent_session_id, "unknown-session");
    let child = manager
        .open(&mut agents, "x", true, &vec![], "{}", Some(root.id.clone()), None)
        .unwrap();
    assert_eq!(child.level, 2);
    let err = manager
        .open(&mut agents, "x", true, &vec![], "{}", Some(child.id.clone()), None)
        .unwrap_err();
    assert_eq!(err, "子 Agent 层级超过上限 2，当前无法继续创建");
    assert_eq!(
        manager.open(&mut agents, "x", true, &vec![], "{}", Some("nope".to_string()), None).unwrap_err(),
        "未找到父 Agent：nope"
    );
    for _ in 0..3 {
        manager.open(&mut agents, "x", true, &vec![], "{}", None, None).unwrap();
    }
    assert_eq!(agents.len(), 5);
    assert_eq!(
        manager.open(&mut agents, "x", true, &vec![], "{}", None, None).unwrap_err(),
        "子 Agent 总数超过上限 5，当前无法继续创建"
    );
    assert_eq!(open_level_for(&agents, None).unwrap_err(), "子 Agent 总数超过上限 5，当前无法继续创建");
    assert_eq!(agent_mode_from("Isolate"), AgentMode::Isolate);
    assert_eq!(agent_mode_from("other"), AgentMode::Inherit);
}

#[test]
fn eval_records_a_summary() {
    let manager = SubagentManager::new("s".to_string());
    let mut agents: Vec<AgentInstance> = Vec::new();
    let a = manager.open(&mut agents, "x", true, &vec![], "{}", None, None).unwrap();
    let long = "x".repeat(90);
    let summary = manager.eval_at(&mut agents, &a.id, &long, "T").unwrap();
    assert_eq!(
        summary,
        format!("已记录子 Agent 任务执行请求，Agent={}，输入摘要={}...", a.id, "x".repeat(80))
    );
    assert_eq!(agents[0].status, AgentStatus::Done);
    assert_eq!(agents[0].updated_at, "T");
    assert_eq!(manager.eval_at(&mut agents, "zz", "i", "T").unwrap_err(), "未找到子 Agent：zz");
}

#[test]
fn closing_keeps_every_other_field() {
    let manager = SubagentManager::new("s".to_string());
    let mut agents: Vec<AgentInstance> = Vec::new();
    let agent = manager
        .open(&mut agents, "isolate", false, &vec!["src".to_string()], "{\"task\":\"demo\"}", None, Some("s"))
        .unwrap();
    assert_eq!(agent.inherit_context, false);
    assert_eq!(agent.task_spec_json, "{\"task\":\"demo\"}");
    assert_eq!(agent.result_summary, "");
    assert_eq!(agent.parent_agent_id, None);
    let closed = manager.close(&mut agents, &agent.id).unwrap();
    assert_eq!(closed.status, AgentStatus::Closed);
    assert_eq!(closed.id, agent.id);
    assert_eq!(closed.parent_session_id, agent.parent_session_id);
    assert_eq!(closed.parent_agent_id, agent.parent_agent_id);
    assert_eq!(closed.mode, agent.mode);
    assert_eq!(closed.inherit_context, agent.inherit_context);
    assert_eq!(closed.level, agent.level);
    assert_eq!(closed.session_dir, agent.session_dir);
    assert_eq!(closed.child_session_id, agent.child_session_id);
    assert_eq!(closed.allowed_paths_json, agent.allowed_paths_json);
    assert_eq!(closed.task_spec_json, agent.task_spec_json);
    assert_eq!(closed.constraint_hash, agent.constraint_hash);
    assert_eq!(closed.result_summary, agent.result_summary);
    assert_eq!(closed.created_at, agent.created_at);
    assert_eq!(agents.len(), 1);
    assert_eq!(agents[0].status, AgentStatus::Closed);
}

#[test]
fn allowed_paths_are_kept_as_a_json_array() {
    let manager = SubagentManager::new("s".to_string());
    let mut agents: Vec<AgentInstance> = Vec::new();
    let paths = vec!["a\"b\\c\n".to_string(), "d\u{1}".to_string(), "路径".to_string()];
    let agent = manager.open(&mut agents, "x", true, &paths, "{}", None, None).unwrap();
    assert_eq!(agent.allowed_paths_json, "[\"a\\\"b\\\\c\\n\",\"d\\u0001\",\"路径\"]");
    let empty = manager.open(&mut agents, "x", true, &vec![], "{}", None, None).unwrap();
    assert_eq!(empty.allowed_paths_json, "[]");
}
