use dshns::domain::{ApprovalMode, SessionStatus};
use dshns::records::{Session, ToolProjectionType, ToolResultRecord};
use dshns::session::{
    begin_turn, cancel_turn, check_session_deletable, check_workspace_deletable, decide_repair,
    find_by_call_id, find_by_handle, finish_turn, result_body_file, session_matches_key,
    tool_result_body, ResultBody,
    working_memory_boundary, workspace_from_session, RecoveryReport, RepairAction,
};
use dshns::snapshot::{
    render_ini, render_session_ini, session_from_ini, session_from_ini_at, session_ini_entries,
};
use dshns::util::sha256_hex;

fn demo_session(id: &str) -> Session {
    Session::new(
        id.to_string(),
        "directory-demo".to_string(),
        "demo".to_string(),
        "demo-project".to_string(),
        "D:/demo".to_string(),
        "D:/demo".to_string(),
        "deepseek-v4-flash".to_string(),
        ApprovalMode::AskUser,
        true,
        format!("target/{}", id),
        "system prompt".to_string(),
    )
}

#[test]
fn should_write_and_read_session_ini() {
    let session = Session::new(
        "session-1".to_string(),
        "directory-1".to_string(),
        "demo".to_string(),
        "demo-project".to_string(),
        "D:/demo".to_string(),
        "D:/demo".to_string(),
        "deepseek-v4-flash".to_string(),
        ApprovalMode::AskUser,
        true,
        "target/test_session_ini".to_string(),
        "system prompt".to_string(),
    );
    let text = render_ini(&session_ini_entries(&session));
    let loaded = session_from_ini(&text, "target/test_session_ini/session.ini", "target/test_session_ini", Some("test_session_ini"))
        .expect("读取 session.ini 失败");
    assert_eq!(loaded.id, session.id);
    assert_eq!(loaded.name, session.name);
}

#[test]
fn session_ini_round_trips_all_fields() {
    let mut session = demo_session("s-2");
    session.round = 5;
    session.last_round_no = -3;
    session.status = SessionStatus::Finished;
    session.approval_mode = ApprovalMode::FullAccess;
    session.stream_output = false;
    session.snapshot_version = i64::MAX;
    session.is_finished = true;
    let text = render_session_ini(&session);
    let loaded = session_from_ini_at(&text, "p", &session.session_dir, None, "now").unwrap();
    assert_eq!(loaded.id, session.id);
    assert_eq!(loaded.directory_id, session.directory_id);
    assert_eq!(loaded.project_path, session.project_path);
    assert_eq!(loaded.snapshot_version, i64::MAX);
    assert!(loaded.is_finished);
    assert_eq!(loaded.round, 5);
    assert_eq!(loaded.last_round_no, -3);
    assert_eq!(loaded.status, SessionStatus::Finished);
    assert_eq!(loaded.approval_mode, ApprovalMode::FullAccess);
    assert!(!loaded.stream_output);
    assert_eq!(loaded.created_at, session.created_at);
    assert_eq!(loaded.system_prompt, "system prompt");
}

#[test]
fn missing_snapshot_values_take_defaults() {
    let loaded = session_from_ini_at("[session]\nproject_path=/p\n", "x", "dir/abc", Some("abc"), "T0").unwrap();
    assert_eq!(loaded.id, "abc");
    assert_eq!(loaded.name, "restored-session");
    assert_eq!(loaded.project_name, "workspace");
    assert_eq!(loaded.working_directory, "/p");
    assert_eq!(loaded.model, "deepseek-v4-flash");
    assert_eq!(loaded.approval_mode, ApprovalMode::AskUser);
    assert_eq!(loaded.status, SessionStatus::Selected);
    assert!(loaded.stream_output);
    assert_eq!(loaded.round, 0);
    assert_eq!(loaded.snapshot_version, 1);
    assert_eq!(loaded.directory_id, sha256_hex("/p"));
    assert_eq!(loaded.created_at, "T0");
    assert_eq!(loaded.updated_at, "T0");
}

#[test]
fn should_repair_session_from_snapshot_when_database_missing() {
    let file = demo_session("session-demo");
    let action = decide_repair(&file, None);
    assert_eq!(action, RepairAction::RestoreMissing);
    let mut report = RecoveryReport::new();
    report.record_repair(action, &file, 0, "");
    assert_eq!(report.restored_from_file, 1);
    assert_eq!(report.logs[0], "会话 session-demo：数据库缺失，已根据文件快照恢复");
}

#[test]
fn should_prefer_database_when_database_round_is_newer() {
    let mut db = demo_session("session-demo");
    db.round = 5;
    db.last_round_no = 5;
    db.content_hash = "db_hash".to_string();
    let mut file = demo_session("session-demo");
    file.round = 2;
    file.last_round_no = 2;
    file.content_hash = "file_hash".to_string();
    let action = decide_repair(&file, Some(&db));
    assert_eq!(action, RepairAction::RestoreFromDatabase);
    let mut report = RecoveryReport::new();
    report.record_repair(action, &file, db.last_round_no, &db.id);
    assert_eq!(report.restored_from_database, 1);
    assert_eq!(
        report.logs[0],
        "会话 session-demo：数据库轮次 5 大于文件快照轮次 2，已使用数据库回写文件快照"
    );
}

#[test]
fn should_rebuild_database_from_file_when_hash_conflicts() {
    let mut db = demo_session("session-demo");
    db.round = 3;
    db.last_round_no = 3;
    db.content_hash = "db_hash".to_string();
    let mut file = demo_session("session-demo");
    file.round = 3;
    file.last_round_no = 3;
    file.content_hash = "file_hash".to_string();
    let action = decide_repair(&file, Some(&db));
    assert_eq!(action, RepairAction::RebuildFromFile);
    let mut report = RecoveryReport::new();
    report.record_repair(action, &file, db.last_round_no, &db.id);
    assert_eq!(report.rebuilt_database_from_file, 1);
}

#[test]
fn newer_file_and_equal_snapshots() {
    let mut db = demo_session("s");
    db.last_round_no = 1;
    let mut file = demo_session("s");
    file.last_round_no = 4;
    assert_eq!(decide_repair(&file, Some(&db)), RepairAction::RestoreFromFile);
    let mut report = RecoveryReport::new();
    report.record_repair(RepairAction::RestoreFromFile, &file, 1, "s");
    assert_eq!(report.logs[0], "会话 s：文件快照轮次 4 大于数据库轮次 1，已使用文件恢复数据库");
    file.last_round_no = 1;
    assert_eq!(decide_repair(&file, Some(&db)), RepairAction::InSync);
    report.record_repair(RepairAction::InSync, &file, 1, "s");
    assert_eq!(report.logs.len(), 1);
    report.record_unreadable("dir/x", "bad");
    report.record_missing_snapshot("y");
    assert_eq!(report.unresolved_conflicts, 2);
    assert_eq!(report.logs[1], "会话目录 dir/x：读取快照失败，原因：bad");
    assert_eq!(report.logs[2], "会话 y：数据库存在，但文件快照缺失，未自动伪造快照");
    assert_eq!(
        report.log_text("T"),
        format!("T 启动恢复完成：\n{}\n{}\n{}\n", report.logs[0], report.logs[1], report.logs[2])
    );
    assert_eq!(RecoveryReport::new().log_text("T"), "T 启动恢复完成，未发现冲突。\n");
}

#[test]
fn should_reject_deleting_running_session() {
    let mut session = demo_session("running-session");
    session.status = SessionStatus::Running;
    let error = check_session_deletable(&session).expect_err("运行中会话不应允许删除");
    assert!(error.contains("禁止删除"));
    session.status = SessionStatus::Finished;
    assert!(check_session_deletable(&session).is_ok());
}

#[test]
fn should_reject_deleting_workspace_with_running_session() {
    let idle = demo_session("idle");
    let mut running = demo_session("running-session");
    running.status = SessionStatus::Running;
    let error = check_workspace_deletable(&vec![idle, running]).expect_err("存在运行中会话时不应允许删除工作区");
    assert!(error.contains("禁止删除工作区"));
    assert_eq!(error, "存在运行中的会话，禁止删除工作区：demo");
    assert!(check_workspace_deletable(&vec![demo_session("a")]).is_ok());
}

fn record(id: &str, content: &str, body: &str) -> ToolResultRecord {
    ToolResultRecord {
        tool_call_id: id.to_string(),
        tool_name: "read_file".to_string(),
        handle: format!("tool:{}", id),
        body_file_path: body.to_string(),
        projection_type: ToolProjectionType::InlineFull,
        projection_content: content.to_string(),
        summary: "ok".to_string(),
        preview_head: String::new(),
        preview_tail: String::new(),
        char_count: content.chars().count(),
        byte_count: content.len(),
        success: true,
        truncated: false,
        externalized: !body.is_empty(),
        updated_at: "2026-01-01T00:00:00Z".to_string(),
    }
}

#[test]
fn should_read_tool_result_by_call_id_from_file_fallback() {
    let records = vec![record("call_2", "hello-from-call-id", "")];
    let index = find_by_call_id(&records, "call_2").expect("按工具调用标识读取失败");
    assert_eq!(result_body_file(&records[index]), None);
    assert_eq!(records[index].projection_content, "hello-from-call-id");
}

#[test]
fn lookups_by_handle_and_body_file() {
    let records = vec![record("a", "x", ""), record("b", "y", "/tmp/b.txt")];
    assert_eq!(find_by_handle(&records, "tool:b"), Some(1));
    assert_eq!(find_by_handle(&records, "tool:c"), None);
    assert_eq!(find_by_call_id(&records, "b"), Some(1));
    assert_eq!(result_body_file(&records[1]), Some("/tmp/b.txt".to_string()));
}

#[test]
fn should_mark_running_session_cancelled() {
    let mut session = demo_session("demo");
    session.status = SessionStatus::Running;
    assert!(cancel_turn(&mut session, "T1".to_string()));
    assert_eq!(session.status, SessionStatus::Cancelled);
    assert!(!cancel_turn(&mut session, "T2".to_string()));
    assert_eq!(session.updated_at, "T1");
}

#[test]
fn finishing_a_turn_advances_round_and_hash() {
    let mut session = demo_session("demo");
    begin_turn(&mut session, "T1".to_string());
    assert_eq!(session.status, SessionStatus::Running);
    finish_turn(&mut session, "[]", "T2".to_string());
    assert_eq!(session.round, 1);
    assert_eq!(session.last_round_no, 1);
    assert_eq!(session.snapshot_version, 2);
    assert_eq!(session.status, SessionStatus::Finished);
    assert_eq!(session.content_hash, sha256_hex("[]"));
    assert_eq!(working_memory_boundary(session.round), "round-2");
    assert!(session_matches_key(&session, "demo"));
    let ws = workspace_from_session(&session);
    assert_eq!(ws.id, "directory-demo");
    assert!(!ws.is_deleted);
}

#[test]
fn sha256_of_known_text() {
    assert_eq!(
        sha256_hex("abc"),
        "ba7816bf8f01cfea414140de5dae2223b00361a396177a9cb410ff61f20015ad"
    );
}

#[test]
fn multiline_prompt_is_not_kept_by_the_snapshot() {
    let mut session = demo_session("s-multiline");
    session.system_prompt = "first line\nsecond line".to_string();
    let text = render_session_ini(&session);
    let loaded = session_from_ini_at(&text, "p", &session.session_dir, None, "now").unwrap();
    assert_eq!(loaded.system_prompt, "first line");
    assert_eq!(loaded.id, session.id);
}

#[test]
fn an_unreadable_snapshot_is_reported_as_configparser_loads_it() {
    let error = session_from_ini_at("=x\n", "d/session.ini", "d", Some("d"), "now").unwrap_err();
    assert!(error.starts_with("读取 session.ini 失败：d/session.ini，原因：couldn't read d/session.ini: "));
    assert!(error.contains("Key cannot be empty"));
}

#[test]
fn a_result_body_comes_from_its_file_only_when_externalized() {
    assert_eq!(tool_result_body(&record("a", "short", "")), ResultBody::Inline("short".to_string()));
    assert_eq!(tool_result_body(&record("b", "head", "d/b.txt")), ResultBody::File("d/b.txt".to_string()));
}

#[test]
fn a_new_session_has_plain_timestamps_and_reads_back() {
    let s = Session::new(
        "session-1".to_string(),
        "directory-1".to_string(),
        "demo".to_string(),
        "demo-project".to_string(),
        "D:/demo".to_string(),
        "D:/demo".to_string(),
        "deepseek-v4-flash".to_string(),
        ApprovalMode::AskUser,
        true,
        "target/test_session_ini".to_string(),
        "system prompt".to_string(),
    );
    assert_eq!(s.created_at.len(), 20);
    assert!(s.created_at.ends_with('Z'));
    assert_eq!(s.created_at, s.updated_at);
    let text = render_session_ini(&s);
    let loaded = session_from_ini_at(&text, "p", &s.session_dir, None, "now").unwrap();
    assert_eq!(loaded.id, "session-1");
    assert_eq!(loaded.name, "demo");
    assert_eq!(loaded.created_at, s.created_at);
    assert_eq!(loaded.updated_at, s.updated_at);
}

#[test]
fn a_snapshot_with_a_multi_line_prompt_reads_back_its_other_fields() {
    let mut s = Session::new(
        "session-1".to_string(),
        "directory-1".to_string(),
        "demo".to_string(),
        "demo-project".to_string(),
        "D:/demo".to_string(),
        "D:/demo".to_string(),
        "deepseek-v4-flash".to_string(),
        ApprovalMode::FullAccess,
        false,
        "target/test_session_ini".to_string(),
        "## 全局约束\n未找到全局 AGENTS.md。\n\n## 工作区约束\n- keep it short: yes\n\n## 可用 Skill 摘要\n当前未扫描到可用 Skill。\n"
            .to_string(),
    );
    s.round = 7;
    s.last_round_no = 6;
    let text = render_session_ini(&s);
    assert!(text.contains("[session]\n") && text.contains("[state]\n") && text.contains("[snapshot]\n") && text.contains("[meta]\n"));
    assert!(text.contains("id=session-1\n"));
    assert!(text.contains("round=7\n"));
    assert!(text.contains("system_prompt=## 全局约束\n未找到全局 AGENTS.md。\n"));
    let loaded = session_from_ini_at(&text, "p", &s.session_dir, None, "now").unwrap();
    assert_eq!(loaded.id, "session-1");
    assert_eq!(loaded.directory_id, "directory-1");
    assert_eq!(loaded.name, "demo");
    assert_eq!(loaded.model, "deepseek-v4-flash");
    assert_eq!(loaded.approval_mode, ApprovalMode::FullAccess);
    assert!(!loaded.stream_output);
    assert_eq!(loaded.round, 7);
    assert_eq!(loaded.last_round_no, 6);
    assert_eq!(loaded.created_at, s.created_at);
    // The prompt's first line is a comment once written, so it reads back empty.
    assert_eq!(loaded.system_prompt, "");
}
