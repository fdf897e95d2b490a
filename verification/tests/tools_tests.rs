use dshns::tools::{
    check_replace_range, extract_keyword_context, missing_env_message, render_process_output,
    replace_line_range, sanitize_name, validate_user_input, RequestUserInputOption,
    RequestUserInputQuestion,
};

#[test]
fn should_replace_specific_range() {
    let actual = replace_line_range("a\nb\nc\nd\n", 2, 3, "x\ny").expect("替换文件范围失败");
    assert_eq!(actual, "a\nx\ny\nd\n");
}

#[test]
fn should_require_missing_env() {
    let error = missing_env_message("DSHNS_TEST_MISSING_ENV");
    assert!(error.contains("缺少环境变量"));
}

#[test]
fn replace_range_edges() {
    assert_eq!(replace_line_range("a\nb\n", 1, 2, "").unwrap(), "");
    assert_eq!(replace_line_range("a\r\nb", 2, 2, "c").unwrap(), "a\nc\n");
    assert_eq!(
        replace_line_range("a\n", 2, 2, "x").unwrap_err(),
        "replace_range 超出文件范围：文件共 1 行，收到 2-2"
    );
    assert!(replace_line_range("a\n", 0, 1, "x").unwrap_err().starts_with("replace_range 行号非法"));
    assert!(check_replace_range(3, 2).is_err());
    assert!(check_replace_range(2, 3).is_ok());
}

#[test]
fn keyword_context_windows() {
    assert_eq!(extract_keyword_context("hello world", "wor", 2), Some("o world".to_string()));
    assert_eq!(extract_keyword_context("hello", "", 2), None);
    assert_eq!(extract_keyword_context("hello", "z", 2), None);
    assert_eq!(extract_keyword_context("中文关键字测试", "关键", 1), Some("文关键字".to_string()));
    assert_eq!(extract_keyword_context("abc", "b", usize::MAX), Some("abc".to_string()));
}

#[test]
fn names_are_sanitized() {
    assert_eq!(sanitize_name("a b/c-d_e.1"), "a_b_c-d_e_1");
    assert_eq!(sanitize_name("中"), "_");
}

#[test]
fn process_output_is_rendered() {
    assert_eq!(
        render_process_output(b" out \n", b"", Some(0)),
        "退出码：0\n标准输出：\nout"
    );
    assert_eq!(render_process_output(b"", b"err", None), "退出码：-1\n标准错误：\nerr");
    assert_eq!(render_process_output(b"", b"", Some(3)), "退出码：3");
}

fn question(options: usize, header: &str) -> RequestUserInputQuestion {
    RequestUserInputQuestion {
        header: header.to_string(),
        id: "q".to_string(),
        question: "Which?".to_string(),
        options: (0..options)
            .map(|i| RequestUserInputOption {
                label: format!("L{}", i),
                description: "d".to_string(),
            })
            .collect(),
    }
}

#[test]
fn user_questions_are_checked() {
    assert!(validate_user_input(&vec![question(2, "H")]).is_ok());
    assert_eq!(
        validate_user_input(&vec![]).unwrap_err(),
        "request_user_input 需要 1 到 3 个问题"
    );
    assert_eq!(
        validate_user_input(&vec![question(2, "  ")]).unwrap_err(),
        "request_user_input 存在空白问题字段"
    );
    assert_eq!(
        validate_user_input(&vec![question(4, "H")]).unwrap_err(),
        "request_user_input 的每个问题需要 2 到 3 个选项"
    );
    let mut q = question(2, "H");
    q.options[1].description = " ".to_string();
    assert_eq!(
        validate_user_input(&vec![q]).unwrap_err(),
        "request_user_input 存在空白选项字段"
    );
}
