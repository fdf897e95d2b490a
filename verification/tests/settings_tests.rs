use dshns::domain::ApprovalMode;
use dshns::settings::{parse_approval_mode, Settings};

fn defaults() -> Settings {
    Settings::defaults(
        ".".to_string(),
        "./.dshns".to_string(),
        "./.dshns/sessions".to_string(),
        "./.dshns/harness.db".to_string(),
        "./setting.ini".to_string(),
        vec!["./skills".to_string()],
    )
}

#[test]
fn should_load_default_settings_without_ini() {
    let settings = defaults();
    assert_eq!(settings.default_model, "deepseek-v4-flash");
    assert!(settings.is_allowed_model("deepseek-v4-pro"));
    assert_eq!(settings.max_skill_file_bytes, 65_536);
    assert!(settings.allow_network);
    assert!(!settings.allow_shell);
    assert!(!settings.allow_file_write);
}

#[test]
fn should_load_approval_flags_from_ini() {
    let mut settings = defaults();
    settings
        .apply_ini(
            "[approval]\nmode=1\nallow_network=false\nallow_shell=true\nallow_file_write=true\nallow_plugin_tool=true\n",
        )
        .expect("加载带审批开关的配置失败");
    assert_eq!(settings.default_approval_mode, ApprovalMode::AutoApproveSafe);
    assert!(!settings.allow_network);
    assert!(settings.allow_shell);
    assert!(settings.allow_file_write);
    assert!(settings.allow_plugin_tool);
}

#[test]
fn ini_overrides_models_limits_and_falls_back_to_api_section() {
    let mut settings = defaults();
    settings
        .apply_ini(
            "[api]\nmodel=deepseek-v4-pro\nbase_url=http://local/api\n[limits]\nmax_rounds=7\ntool_call_limit=abc\n[agent]\nmax_rounds=9\n[skill]\nmax_skill_file_bytes=16\n[cli]\nstream_output=FALSE\n",
        )
        .unwrap();
    assert_eq!(settings.default_model, "deepseek-v4-pro");
    assert_eq!(settings.deepseek_base_url, "http://local/api");
    assert_eq!(settings.max_rounds, 7);
    assert_eq!(settings.tool_call_limit, 20);
    assert_eq!(settings.max_skill_file_bytes, 16);
    assert!(!settings.default_stream_output);
    assert_eq!(settings.invalid_arg_retry_limit, 3);
}

#[test]
fn empty_model_keeps_default() {
    let mut settings = defaults();
    settings.apply_ini("[model]\ndefault=\n[api]\nmodel=deepseek-v4-pro\n").unwrap();
    assert_eq!(settings.default_model, "deepseek-v4-flash");
}

#[test]
fn approval_mode_names_and_numbers() {
    assert_eq!(parse_approval_mode(Some(" 2 "), ApprovalMode::AskUser), ApprovalMode::FullAccess);
    assert_eq!(parse_approval_mode(Some("FullAccess"), ApprovalMode::AskUser), ApprovalMode::FullAccess);
    assert_eq!(parse_approval_mode(Some("0"), ApprovalMode::FullAccess), ApprovalMode::AskUser);
    assert_eq!(parse_approval_mode(Some("1"), ApprovalMode::AskUser), ApprovalMode::AutoApproveSafe);
    assert_eq!(parse_approval_mode(Some("7"), ApprovalMode::FullAccess), ApprovalMode::FullAccess);
    assert_eq!(parse_approval_mode(None, ApprovalMode::AutoApproveSafe), ApprovalMode::AutoApproveSafe);
}

#[test]
fn defaults_list_four_models() {
    let settings = defaults();
    assert_eq!(settings.allowed_models.len(), 4);
    assert!(settings.is_allowed_model("deepseek-v4-pro[1m]"));
    assert!(!settings.is_allowed_model("gpt"));
    assert_eq!(settings.max_rounds, 40);
    assert_eq!(settings.inline_output_limit, 1200);
}

#[test]
fn an_unreadable_settings_file_is_reported_as_configparser_loads_it() {
    let mut settings = defaults();
    let error = settings.apply_ini("=x\n").unwrap_err();
    assert!(error.starts_with("读取配置文件失败：./setting.ini，原因：couldn't read ./setting.ini: "));
    assert!(error.contains("Key cannot be empty"));
    assert_eq!(settings.default_model, "deepseek-v4-flash");
}
