use dshns::cli::error_status;
use dshns::handling::{
    answer_retrieve, apply_text_edit, blame_command, count_occurrences, diff_command,
    github_url, log_command, missing_fields, needs_body, parse_handle, parse_retrieve_request,
    replace_first_str, select_matching, show_command, text_matches, HandleTarget,
    RetrieveRequest,
};
use dshns::records::WorkspaceDirectory;
use dshns::session::workspace_matches_key;

#[test]
fn edit_replaces_first_occurrence_by_default() {
    let out = apply_text_edit("a-b-a", "a", "x", false, "edit_file", "f.txt").unwrap();
    assert_eq!(out, "x-b-a");
}

#[test]
fn edit_replaces_every_occurrence_when_asked() {
    let out = apply_text_edit("a-b-a", "a", "x", true, "edit_file", "f.txt").unwrap();
    assert_eq!(out, "x-b-x");
}

#[test]
fn edit_refuses_empty_old_text() {
    let err = apply_text_edit("abc", "", "x", false, "fim_edit", "f.txt").unwrap_err();
    assert_eq!(err, "fim_edit 的 old_text 不能为空");
}

#[test]
fn edit_refuses_missing_old_text() {
    let err = apply_text_edit("abc", "zz", "x", false, "edit_file", "/w/f.txt").unwrap_err();
    assert_eq!(err, "未在目标文件中找到待替换内容：/w/f.txt");
}

#[test]
fn replace_first_keeps_text_without_match() {
    assert_eq!(replace_first_str("hello", "xyz", "q"), "hello");
    assert_eq!(replace_first_str("日本日本", "本", "语"), "日语日本");
}

#[test]
fn text_matches_ignores_ascii_case() {
    assert!(text_matches("Cargo.TOML", "toml"));
    assert!(!text_matches("main.rs", "lib"));
}

#[test]
fn select_matching_keeps_order_and_limit() {
    let names = vec![
        "a.rs".to_string(),
        "B.RS".to_string(),
        "c.txt".to_string(),
        "d.rs".to_string(),
    ];
    assert_eq!(select_matching(&names, ".rs", 2), vec![0, 1]);
    assert_eq!(select_matching(&names, ".rs", 10), vec![0, 1, 3]);
    assert_eq!(select_matching(&names, ".rs", 0), Vec::<usize>::new());
}

#[test]
fn missing_fields_lists_absent_in_order() {
    let required = vec!["a".to_string(), "b".to_string(), "c".to_string()];
    let present = vec!["b".to_string()];
    assert_eq!(missing_fields(&required, &present), vec!["a".to_string(), "c".to_string()]);
    assert!(missing_fields(&required, &required).is_empty());
}

#[test]
fn github_url_joins_with_one_slash() {
    assert_eq!(
        github_url("https://api.github.com/", "repos/a/b"),
        "https://api.github.com/repos/a/b"
    );
    assert_eq!(github_url("https://x.test//", "/user"), "https://x.test/user");
}

#[test]
fn git_command_lines() {
    assert_eq!(blame_command("src/lib.rs", Some(3), Some(9)), "git blame -L 3,9 -- src/lib.rs");
    assert_eq!(blame_command("a.rs", Some(4), None), "git blame -L 4,4 -- a.rs");
    assert_eq!(blame_command("a.rs", None, Some(4)), "git blame -- a.rs");
    assert_eq!(log_command(10), "git log -n 10 --oneline");
    assert_eq!(diff_command(Some("HEAD~1")), "git diff HEAD~1");
    assert_eq!(diff_command(None), "git diff");
    assert_eq!(show_command("abc123"), "git show --stat abc123");
}

#[test]
fn occurrences_count_like_str_matches() {
    assert_eq!(count_occurrences("aaaa", "aa"), 2);
    assert_eq!(count_occurrences("hello rust, rust", "rust"), 2);
    assert_eq!(count_occurrences("abc", "z"), 0);
    assert_eq!(count_occurrences("abc", ""), 4);
    assert_eq!(count_occurrences("abc", ""), "abc".matches("").count());
}

#[test]
fn retrieve_request_defaults_to_body() {
    let r = parse_retrieve_request(None, None, None, None, None).unwrap();
    assert!(matches!(r, RetrieveRequest::Body));
    assert!(needs_body(&r));
    let s = parse_retrieve_request(Some("summary"), None, None, None, None).unwrap();
    assert!(!needs_body(&s));
}

#[test]
fn retrieve_request_errors() {
    assert_eq!(
        parse_retrieve_request(Some("slice"), Some(2), None, None, None).unwrap_err(),
        "retrieve_tool_result 在 slice 模式下缺少 length_chars"
    );
    assert_eq!(
        parse_retrieve_request(Some("keyword_context"), None, None, Some(String::new()), None)
            .unwrap_err(),
        "retrieve_tool_result 在 keyword_context 模式下缺少 keyword"
    );
    assert_eq!(
        parse_retrieve_request(Some("full"), None, None, None, None).unwrap_err(),
        "retrieve_tool_result 不支持的 mode：full"
    );
}

#[test]
fn retrieve_answers() {
    let slice = parse_retrieve_request(Some("slice"), None, Some(3), None, None).unwrap();
    assert_eq!(answer_retrieve(&slice, "s", "h", "t", "abcdef").unwrap(), "abc");
    let kw = parse_retrieve_request(Some("keyword_context"), None, None, Some("cd".to_string()), Some(1))
        .unwrap();
    assert_eq!(answer_retrieve(&kw, "s", "h", "t", "abcdef").unwrap(), "bcde");
    let missing = parse_retrieve_request(Some("keyword_context"), None, None, Some("zz".to_string()), None)
        .unwrap();
    assert_eq!(
        answer_retrieve(&missing, "s", "h", "t", "abcdef").unwrap_err(),
        "未在工具结果中找到关键字：zz"
    );
    let head = parse_retrieve_request(Some("head"), None, None, None, None).unwrap();
    assert_eq!(answer_retrieve(&head, "s", "h", "t", "").unwrap(), "h");
    let tail = parse_retrieve_request(Some("tail"), None, None, None, None).unwrap();
    assert_eq!(answer_retrieve(&tail, "s", "h", "t", "").unwrap(), "t");
}

#[test]
fn handles_name_tool_calls_or_files() {
    assert!(matches!(parse_handle("tool:call_1"), Ok(HandleTarget::ToolCall(id)) if id == "call_1"));
    assert!(matches!(parse_handle("file:src/a.rs"), Ok(HandleTarget::File(p)) if p == "src/a.rs"));
    assert_eq!(
        parse_handle("http://x").unwrap_err(),
        "handle_read 仅支持 tool: 或 file: 句柄：http://x"
    );
}

#[test]
fn server_errors_map_to_status() {
    assert_eq!(error_status("未找到会话：x"), 404);
    assert_eq!(error_status("工具结果正文不存在：p"), 404);
    assert_eq!(error_status("database locked"), 500);
}

#[test]
fn workspace_keys() {
    let w = WorkspaceDirectory {
        id: "id1".to_string(),
        project_name: "demo".to_string(),
        project_path: "/p/demo".to_string(),
        created_at: "t".to_string(),
        updated_at: "t".to_string(),
        is_deleted: false,
    };
    assert!(workspace_matches_key(&w, "id1"));
    assert!(workspace_matches_key(&w, "demo"));
    assert!(workspace_matches_key(&w, "/p/demo"));
    assert!(!workspace_matches_key(&w, "other"));
}

#[test]
fn grep_content_numbers_matching_lines_and_stops_at_the_limit() {
    assert!(dshns::handling::grep_pattern_problem("fo+").is_none());
    let all = dshns::handling::grep_content("a.txt", "alpha\nfoo\nbar fooo\nbaz", "fo+", 0, 100);
    assert_eq!(all.matches.len(), 2);
    assert_eq!(all.matches[0].path, "a.txt");
    assert_eq!(all.matches[0].line_no, 2);
    assert_eq!(all.matches[0].line, "foo");
    assert_eq!(all.matches[1].line_no, 3);
    assert_eq!(all.matches[1].line, "bar fooo");
    assert!(!all.full);
    let one = dshns::handling::grep_content("a.txt", "alpha\nfoo\nbar fooo\nbaz", "fo+", 4, 5);
    assert_eq!(one.matches.len(), 1);
    assert_eq!(one.matches[0].line_no, 2);
    assert!(one.full);
    let zero = dshns::handling::grep_content("a.txt", "foo\nfoo", "foo", 0, 0);
    assert_eq!(zero.matches.len(), 1);
    assert!(zero.full);
    let none = dshns::handling::grep_content("a.txt", "alpha", "^z", 0, 0);
    assert_eq!(none.matches.len(), 0);
    assert!(!none.full);
}

#[test]
fn grep_refuses_a_pattern_that_does_not_compile() {
    let message = dshns::handling::grep_pattern_problem("(").unwrap();
    assert!(message.starts_with("grep_files 正则非法："));
    assert!(message.len() > "grep_files 正则非法：".len());
}

#[test]
fn grep_file_checks_the_pattern_first() {
    assert!(dshns::handling::grep_file("a", "x", "(", 0, 1).unwrap_err().starts_with("grep_files 正则非法："));
    let outcome = dshns::handling::grep_file("a", "x\ny", "y", 0, 1).unwrap();
    assert_eq!(outcome.matches[0].line_no, 2);
    assert!(outcome.full);
}

#[test]
fn grep_flagged_takes_the_flagged_lines_within_the_room() {
    let lines = vec!["a".to_string(), "b".to_string(), "c".to_string()];
    let out = dshns::handling::grep_flagged("f", &lines, &vec![true, false, true], 1, 2);
    assert_eq!(out.matches.len(), 1);
    assert_eq!(out.matches[0].line, "a");
    assert_eq!(out.matches[0].line_no, 1);
    assert!(out.full);
    let all = dshns::handling::grep_flagged("f", &lines, &vec![true, false, true], 0, 10);
    assert_eq!(all.matches.len(), 2);
    assert_eq!(all.matches[1].line_no, 3);
    assert!(!all.full);
}

#[test]
fn directory_entries_are_filtered_and_sorted_by_name() {
    assert!(dshns::handling::is_listed("a.txt", false));
    assert!(!dshns::handling::is_listed(".git", false));
    assert!(dshns::handling::is_listed(".git", true));
    assert!(dshns::handling::is_listed("", false));
    let e = |name: &str, is_dir: bool| dshns::handling::DirEntry { name: name.to_string(), path: format!("d/{}", name), is_dir };
    let sorted = dshns::handling::sort_entries_by_name(vec![e("src", true), e("Cargo.toml", false), e("README.md", false), e("app", true)]);
    let names: Vec<&str> = sorted.iter().map(|x| x.name.as_str()).collect();
    assert_eq!(names, vec!["Cargo.toml", "README.md", "app", "src"]);
    assert!(sorted[3].is_dir);
    assert_eq!(sorted[0].path, "d/Cargo.toml");
}
