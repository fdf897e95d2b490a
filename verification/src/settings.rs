//! The harness settings: their defaults and how `setting.ini` overrides them.

use vstd::prelude::*;

use configparser::ini::Ini;

use crate::domain::{opt_view, ApprovalMode};
use crate::text::{
    char_count, concat3, extend_str, from_chars, owned, str_eq, texts, to_chars, trim_str, trimmed,
};

verus! {

/// Why `text` is not a readable INI document (configparser's `Ini::read`), if it is not.
pub uninterp spec fn ini_error_of(text: Seq<char>) -> Option<Seq<char>>;

/// The value of `key` in `section` of the INI document `text` (configparser's `Ini::get`
/// after `Ini::read`, case-insensitive, without default-section fallback).
pub uninterp spec fn ini_value_of(text: Seq<char>, section: Seq<char>, key: Seq<char>) -> Option<
    Seq<char>,
>;

/// ASCII case-insensitive equality (std's `str::eq_ignore_ascii_case`).
pub open spec fn eq_ignore_ascii_case(a: Seq<char>, b: Seq<char>) -> bool {
    crate::text::ascii_lower(a) == crate::text::ascii_lower(b)
}

/// The value of a decimal digit string.
pub open spec fn digits_value(s: Seq<char>) -> int
    decreases s.len(),
{
    if s.len() == 0 {
        0
    } else {
        digits_value(s.drop_last()) * 10 + (s.last() as int - '0' as int)
    }
}

/// std's `u64::from_str`: an optional `+` and at least one decimal digit, within `u64`.
pub open spec fn u64_of(v: Seq<char>) -> Option<u64> {
    let d = if v.len() > 0 && v[0] == '+' {
        v.drop_first()
    } else {
        v
    };
    if d.len() > 0 && (forall|i: int| 0 <= i < d.len() ==> '0' <= #[trigger] d[i] <= '9')
        && digits_value(d) <= u64::MAX {
        Some(digits_value(d) as u64)
    } else {
        None
    }
}

/// How configparser's `Ini::load` reports a file at `path` that it could not read or parse
/// for the reason `why`.
pub open spec fn load_error_text(path: Seq<char>, why: Seq<char>) -> Seq<char> {
    "couldn't read "@ + path + ": "@ + why
}

/// The error of reading `text` as an INI document (configparser's `Ini::read`), if any; the
/// message is the named function of the text.
#[verifier::external_body]
pub(crate) fn ini_error(text: &str) -> (res: Option<String>)
    ensures
        opt_view(res) == ini_error_of(text@),
{
    let mut ini = Ini::new();
    ini.read(text.to_string()).err()
}

/// `Ini::get(section, key)` on the document `text`.
#[verifier::external_body]
pub(crate) fn ini_get(text: &str, section: &str, key: &str) -> (res: Option<String>)
    ensures
        opt_view(res) == ini_value_of(text@, section@, key@),
{
    let mut ini = Ini::new();
    let _ = ini.read(text.to_string());
    ini.get(section, key)
}

/// `Ini::getbool(section, key)` on the document `text`: absent values give `Ok(None)`, values
/// equal to `true` or `false` ignoring ASCII case give that boolean, others an error.
#[verifier::external_body]
fn ini_getbool(text: &str, section: &str, key: &str) -> (res: Result<Option<bool>, String>)
    ensures
        match ini_value_of(text@, section@, key@) {
            None => res == Ok::<Option<bool>, String>(None),
            Some(v) => if eq_ignore_ascii_case(v, "true"@) {
                res == Ok::<Option<bool>, String>(Some(true))
            } else if eq_ignore_ascii_case(v, "false"@) {
                res == Ok::<Option<bool>, String>(Some(false))
            } else {
                res is Err
            },
        },
{
    let mut ini = Ini::new();
    let _ = ini.read(text.to_string());
    ini.getbool(section, key)
}

/// `Ini::getuint(section, key)` on the document `text`: absent values give `Ok(None)`, others
/// are parsed as a `u64` (std's `u64::from_str`), an error where that fails.
#[verifier::external_body]
fn ini_getuint(text: &str, section: &str, key: &str) -> (res: Result<Option<u64>, String>)
    ensures
        match ini_value_of(text@, section@, key@) {
            None => res == Ok::<Option<u64>, String>(None),
            Some(v) => match u64_of(v) {
                Some(n) => res == Ok::<Option<u64>, String>(Some(n)),
                None => res is Err,
            },
        },
{
    let mut ini = Ini::new();
    let _ = ini.read(text.to_string());
    ini.getuint(section, key)
}

/// The first option that is present.
pub open spec fn first_some<T>(a: Option<T>, b: Option<T>) -> Option<T> {
    if a is Some {
        a
    } else {
        b
    }
}

/// A non-empty text, or `keep`.
pub open spec fn nonempty_or(v: Option<Seq<char>>, keep: Seq<char>) -> Seq<char> {
    match v {
        Some(s) => if s.len() > 0 {
            s
        } else {
            keep
        },
        None => keep,
    }
}

/// The boolean of a key when it reads as one.
pub open spec fn ini_bool(text: Seq<char>, section: Seq<char>, key: Seq<char>) -> Option<bool> {
    match ini_value_of(text, section, key) {
        None => None,
        Some(v) => if eq_ignore_ascii_case(v, "true"@) {
            Some(true)
        } else if eq_ignore_ascii_case(v, "false"@) {
            Some(false)
        } else {
            None
        },
    }
}

/// The number of a key when it reads as one.
pub open spec fn ini_uint(text: Seq<char>, section: Seq<char>, key: Seq<char>) -> Option<u64> {
    match ini_value_of(text, section, key) {
        None => None,
        Some(v) => u64_of(v),
    }
}

/// `v`, or `keep` when absent.
pub open spec fn or_keep<T>(v: Option<T>, keep: T) -> T {
    match v {
        Some(x) => x,
        None => keep,
    }
}

/// The approval mode named by a setting: `0`/`AskUser`, `1`/`AutoApproveSafe`,
/// `2`/`FullAccess` after trimming; anything else gives `fallback`.
pub open spec fn approval_mode_setting(raw: Option<Seq<char>>, fallback: ApprovalMode) -> ApprovalMode {
    let t = trimmed(
        match raw {
            Some(r) => r,
            None => Seq::empty(),
        },
    );
    if t == "0"@ || t == "AskUser"@ {
        ApprovalMode::AskUser
    } else if t == "1"@ || t == "AutoApproveSafe"@ {
        ApprovalMode::AutoApproveSafe
    } else if t == "2"@ || t == "FullAccess"@ {
        ApprovalMode::FullAccess
    } else {
        fallback
    }
}

/// The approval mode named by a setting (see `approval_mode_setting`).
pub fn parse_approval_mode(raw: Option<&str>, fallback: ApprovalMode) -> (res: ApprovalMode)
    ensures
        res == approval_mode_setting(
            match raw {
                Some(r) => Some(r@),
                None => None,
            },
            fallback,
        ),
{
    let ghost raw_text = match raw {
        Some(r) => r@,
        None => Seq::<char>::empty(),
    };
    let trimmed_text = match raw {
        Some(r) => trim_str(r),
        None => {
            proof {
                reveal_strlit("");
                assert(Seq::<char>::empty().subrange(0, 0) =~= Seq::<char>::empty());
                assert(trimmed(Seq::<char>::empty()) =~= Seq::<char>::empty());
            }
            owned("")
        },
    };
    assert(trimmed_text@ == trimmed(raw_text));
    let t = trimmed_text.as_str();
    if str_eq(t, "0") || str_eq(t, "AskUser") {
        ApprovalMode::AskUser
    } else if str_eq(t, "1") || str_eq(t, "AutoApproveSafe") {
        ApprovalMode::AutoApproveSafe
    } else if str_eq(t, "2") || str_eq(t, "FullAccess") {
        ApprovalMode::FullAccess
    } else {
        fallback
    }
}

/// The harness settings.
#[derive(Debug)]
pub struct Settings {
    /// Workspace root.
    pub workspace_root: String,
    /// Data directory.
    pub data_root: String,
    /// Sessions directory.
    pub sessions_root: String,
    /// Database file.
    pub database_path: String,
    /// Settings file.
    pub setting_file: String,
    /// Default model.
    pub default_model: String,
    /// Models that may be chosen.
    pub allowed_models: Vec<String>,
    /// Default approval mode.
    pub default_approval_mode: ApprovalMode,
    /// Whether output is streamed by default.
    pub default_stream_output: bool,
    /// Model calls per turn.
    pub max_rounds: usize,
    /// Calls with bad arguments per turn.
    pub invalid_arg_retry_limit: usize,
    /// Failed calls per turn.
    pub tool_failure_limit: usize,
    /// Tool calls per turn.
    pub tool_call_limit: usize,
    /// Longest tool output handed back whole.
    pub inline_output_limit: usize,
    /// Shell program.
    pub shell_program: String,
    /// Chat completion endpoint.
    pub deepseek_base_url: String,
    /// Skill directories.
    pub skill_roots: Vec<String>,
    /// Largest skill file read, in bytes.
    pub max_skill_file_bytes: usize,
    /// Network tools switch.
    pub allow_network: bool,
    /// Shell tools switch.
    pub allow_shell: bool,
    /// File-writing tools switch.
    pub allow_file_write: bool,
    /// Sub-agent tools switch.
    pub allow_plugin_tool: bool,
}

/// The models that may be chosen by default.
pub open spec fn default_models() -> Seq<Seq<char>> {
    seq![
        "deepseek-v4-flash"@,
        "deepseek-v4-pro"@,
        "deepseek-v4-flash[1m]"@,
        "deepseek-v4-pro[1m]"@,
    ]
}

impl Settings {
    /// The default settings for the given layout: the first default model, the four
    /// DeepSeek models, approval by asking, streaming, 40 rounds, 3 bad-argument calls,
    /// 5 failed calls, 20 tool calls, 1200 inline characters, PowerShell, the DeepSeek
    /// endpoint, 64 KiB skill files, the network switched on and the others off.
    pub fn defaults(
        workspace_root: String,
        data_root: String,
        sessions_root: String,
        database_path: String,
        setting_file: String,
        skill_roots: Vec<String>,
    ) -> (res: Settings)
        ensures
            res.workspace_root == workspace_root,
            res.data_root == data_root,
            res.sessions_root == sessions_root,
            res.database_path == database_path,
            res.setting_file == setting_file,
            res.default_model@ == "deepseek-v4-flash"@,
            texts(res.allowed_models@) == default_models(),
            res.default_approval_mode == ApprovalMode::AskUser,
            res.default_stream_output,
            res.max_rounds == 40,
            res.invalid_arg_retry_limit == 3,
            res.tool_failure_limit == 5,
            res.tool_call_limit == 20,
            res.inline_output_limit == 1200,
            res.shell_program@ == "powershell"@,
            res.deepseek_base_url@ == "https://api.deepseek.com/chat/completions"@,
            res.skill_roots == skill_roots,
            res.max_skill_file_bytes == 65_536,
            res.allow_network,
            !res.allow_shell,
            !res.allow_file_write,
            !res.allow_plugin_tool,
    {
        let allowed_models = vec![
            owned("deepseek-v4-flash"),
            owned("deepseek-v4-pro"),
            owned("deepseek-v4-flash[1m]"),
            owned("deepseek-v4-pro[1m]"),
        ];
        assert(texts(allowed_models@) =~= default_models());
        Settings {
            workspace_root,
            data_root,
            sessions_root,
            database_path,
            setting_file,
            default_model: owned("deepseek-v4-flash"),
            allowed_models,
            default_approval_mode: ApprovalMode::AskUser,
            default_stream_output: true,
            max_rounds: 40,
            invalid_arg_retry_limit: 3,
            tool_failure_limit: 5,
            tool_call_limit: 20,
            inline_output_limit: 1200,
            shell_program: owned("powershell"),
            deepseek_base_url: owned("https://api.deepseek.com/chat/completions"),
            skill_roots,
            max_skill_file_bytes: 65_536,
            allow_network: true,
            allow_shell: false,
            allow_file_write: false,
            allow_plugin_tool: false,
        }
    }

    /// Whether `model` is one of the allowed models.
    pub fn is_allowed_model(&self, model: &str) -> (res: bool)
        ensures
            res == texts(self.allowed_models@).contains(model@),
    {
        let mut i: usize = 0;
        while i < self.allowed_models.len()
            invariant
                i <= self.allowed_models@.len(),
                forall|j: int| 0 <= j < i ==> self.allowed_models@[j]@ != model@,
            decreases self.allowed_models.len() - i,
        {
            if str_eq(self.allowed_models[i].as_str(), model) {
                assert(texts(self.allowed_models@)[i as int] == model@);
                return true;
            }
            i += 1;
        }
        assert forall|j: int| 0 <= j < texts(self.allowed_models@).len() implies
            #[trigger] texts(self.allowed_models@)[j] != model@ by {
            assert(self.allowed_models@[j]@ != model@);
        }
        false
    }

    /// Applies the settings file `text` (its path is `setting_file`): model and endpoint when
    /// set and not empty, with `[api]` as the fallback section; switches and numbers when
    /// they read as such; the approval mode by `approval_mode_setting`. An unreadable file is
    /// an error and changes nothing.
    pub fn apply_ini(&mut self, text: &str) -> (res: Result<(), String>)
        ensures
            match ini_error_of(text@) {
                Some(e) => {
                    &&& res matches Err(msg) && msg@ == "读取配置文件失败："@
                        + old(self).setting_file@ + "，原因："@ + load_error_text(
                        old(self).setting_file@,
                        e,
                    )
                    &&& *final(self) == *old(self)
                },
                None => {
                    let t = text@;
                    let o = *old(self);
                    let f = *final(self);
                    &&& res is Ok
                    &&& f.workspace_root == o.workspace_root
                    &&& f.data_root == o.data_root
                    &&& f.sessions_root == o.sessions_root
                    &&& f.database_path == o.database_path
                    &&& f.setting_file == o.setting_file
                    &&& f.allowed_models == o.allowed_models
                    &&& f.inline_output_limit == o.inline_output_limit
                    &&& f.shell_program == o.shell_program
                    &&& f.skill_roots == o.skill_roots
                    &&& f.default_model@ == nonempty_or(
                        first_some(
                            ini_value_of(t, "model"@, "default"@),
                            ini_value_of(t, "api"@, "model"@),
                        ),
                        o.default_model@,
                    )
                    &&& f.default_stream_output == or_keep(
                        first_some(
                            ini_bool(t, "model"@, "stream_output"@),
                            ini_bool(t, "cli"@, "stream_output"@),
                        ),
                        o.default_stream_output,
                    )
                    &&& f.max_rounds == or_keep(
                        first_some(
                            ini_uint(t, "limits"@, "max_rounds"@),
                            ini_uint(t, "agent"@, "max_rounds"@),
                        ),
                        o.max_rounds as u64,
                    ) as usize
                    &&& f.invalid_arg_retry_limit == or_keep(
                        ini_uint(t, "limits"@, "invalid_arg_retry_limit"@),
                        o.invalid_arg_retry_limit as u64,
                    ) as usize
                    &&& f.tool_failure_limit == or_keep(
                        ini_uint(t, "limits"@, "tool_failure_limit"@),
                        o.tool_failure_limit as u64,
                    ) as usize
                    &&& f.tool_call_limit == or_keep(
                        ini_uint(t, "limits"@, "tool_call_limit"@),
                        o.tool_call_limit as u64,
                    ) as usize
                    &&& f.deepseek_base_url@ == nonempty_or(
                        first_some(
                            ini_value_of(t, "deepseek"@, "base_url"@),
                            ini_value_of(t, "api"@, "base_url"@),
                        ),
                        o.deepseek_base_url@,
                    )
                    &&& f.max_skill_file_bytes == or_keep(
                        ini_uint(t, "skill"@, "max_skill_file_bytes"@),
                        o.max_skill_file_bytes as u64,
                    ) as usize
                    &&& f.default_approval_mode == approval_mode_setting(
                        ini_value_of(t, "approval"@, "mode"@),
                        o.default_approval_mode,
                    )
                    &&& f.allow_network == or_keep(
                        ini_bool(t, "approval"@, "allow_network"@),
                        o.allow_network,
                    )
                    &&& f.allow_shell == or_keep(
                        ini_bool(t, "approval"@, "allow_shell"@),
                        o.allow_shell,
                    )
                    &&& f.allow_file_write == or_keep(
                        ini_bool(t, "approval"@, "allow_file_write"@),
                        o.allow_file_write,
                    )
                    &&& f.allow_plugin_tool == or_keep(
                        ini_bool(t, "approval"@, "allow_plugin_tool"@),
                        o.allow_plugin_tool,
                    )
                },
            },
    {
        if let Some(e) = ini_error(text) {
            let mut v = to_chars("读取配置文件失败：");
            extend_str(&mut v, self.setting_file.as_str());
            extend_str(&mut v, "，原因：");
            let mut why = to_chars("couldn't read ");
            extend_str(&mut why, self.setting_file.as_str());
            extend_str(&mut why, ": ");
            extend_str(&mut why, e.as_str());
            let why = from_chars(&why);
            extend_str(&mut v, why.as_str());
            return Err(from_chars(&v));
        }
        let model = pick_text(
            ini_get(text, "model", "default"),
            ini_get(text, "api", "model"),
            &self.default_model,
        );
        let stream = or_keep_bool(
            first_bool(
                ini_getbool(text, "model", "stream_output"),
                ini_getbool(text, "cli", "stream_output"),
            ),
            self.default_stream_output,
        );
        let rounds = or_keep_usize(
            first_uint(
                ini_getuint(text, "limits", "max_rounds"),
                ini_getuint(text, "agent", "max_rounds"),
            ),
            self.max_rounds,
        );
        let invalid = or_keep_usize(
            first_uint(ini_getuint(text, "limits", "invalid_arg_retry_limit"), Ok(None)),
            self.invalid_arg_retry_limit,
        );
        let failures = or_keep_usize(
            first_uint(ini_getuint(text, "limits", "tool_failure_limit"), Ok(None)),
            self.tool_failure_limit,
        );
        let calls = or_keep_usize(
            first_uint(ini_getuint(text, "limits", "tool_call_limit"), Ok(None)),
            self.tool_call_limit,
        );
        let url = pick_text(
            ini_get(text, "deepseek", "base_url"),
            ini_get(text, "api", "base_url"),
            &self.deepseek_base_url,
        );
        let skill_bytes = or_keep_usize(
            first_uint(ini_getuint(text, "skill", "max_skill_file_bytes"), Ok(None)),
            self.max_skill_file_bytes,
        );
        let mode_text = ini_get(text, "approval", "mode");
        let mode = match &mode_text {
            Some(m) => parse_approval_mode(Some(m.as_str()), self.default_approval_mode),
            None => parse_approval_mode(None, self.default_approval_mode),
        };
        let network = or_keep_bool(
            first_bool(ini_getbool(text, "approval", "allow_network"), Ok(None)),
            self.allow_network,
        );
        let shell = or_keep_bool(
            first_bool(ini_getbool(text, "approval", "allow_shell"), Ok(None)),
            self.allow_shell,
        );
        let file_write = or_keep_bool(
            first_bool(ini_getbool(text, "approval", "allow_file_write"), Ok(None)),
            self.allow_file_write,
        );
        let plugin = or_keep_bool(
            first_bool(ini_getbool(text, "approval", "allow_plugin_tool"), Ok(None)),
            self.allow_plugin_tool,
        );
        self.default_model = model;
        self.default_stream_output = stream;
        self.max_rounds = rounds;
        self.invalid_arg_retry_limit = invalid;
        self.tool_failure_limit = failures;
        self.tool_call_limit = calls;
        self.deepseek_base_url = url;
        self.max_skill_file_bytes = skill_bytes;
        self.default_approval_mode = mode;
        self.allow_network = network;
        self.allow_shell = shell;
        self.allow_file_write = file_write;
        self.allow_plugin_tool = plugin;
        Ok(())
    }
}

/// The first text present when it is not empty, else a copy of `keep`.
pub fn pick_text(a: Option<String>, b: Option<String>, keep: &String) -> (res: String)
    ensures
        res@ == nonempty_or(first_some(opt_view(a), opt_view(b)), keep@),
{
    match first_text(a, b) {
        Some(v) => if char_count(v.as_str()) > 0 {
            v
        } else {
            keep.clone()
        },
        None => keep.clone(),
    }
}

/// `v`, or `keep` when absent.
pub fn or_keep_bool(v: Option<bool>, keep: bool) -> (res: bool)
    ensures
        res == or_keep(v, keep),
{
    match v {
        Some(x) => x,
        None => keep,
    }
}

/// `v` as a `usize`, or `keep` when absent.
pub fn or_keep_usize(v: Option<u64>, keep: usize) -> (res: usize)
    ensures
        res == or_keep(v, keep as u64) as usize,
{
    match v {
        Some(x) => x as usize,
        None => keep,
    }
}

/// The first text that is present.
fn first_text(a: Option<String>, b: Option<String>) -> (res: Option<String>)
    ensures
        opt_view(res) == first_some(opt_view(a), opt_view(b)),
{
    if a.is_some() {
        a
    } else {
        b
    }
}

/// The first boolean that reads as one.
pub fn first_bool(a: Result<Option<bool>, String>, b: Result<Option<bool>, String>) -> (res: Option<bool>)
    ensures
        res == first_some(
            match a {
                Ok(Some(x)) => Some(x),
                _ => None,
            },
            match b {
                Ok(Some(x)) => Some(x),
                _ => None,
            },
        ),
{
    match a {
        Ok(Some(x)) => Some(x),
        _ => match b {
            Ok(Some(x)) => Some(x),
            _ => None,
        },
    }
}

/// The first number that reads as one.
pub fn first_uint(a: Result<Option<u64>, String>, b: Result<Option<u64>, String>) -> (res: Option<u64>)
    ensures
        res == first_some(
            match a {
                Ok(Some(x)) => Some(x),
                _ => None,
            },
            match b {
                Ok(Some(x)) => Some(x),
                _ => None,
            },
        ),
{
    match a {
        Ok(Some(x)) => Some(x),
        _ => match b {
            Ok(Some(x)) => Some(x),
            _ => None,
        },
    }
}

} // verus!
