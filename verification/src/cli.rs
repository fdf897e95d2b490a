//! The command line: how a command typed at the prompt is read, and how the program's
//! arguments choose between the prompt and the HTTP server.

use vstd::prelude::*;

use crate::text::{
    contains_seq, contains_str, from_chars, is_whitespace_char, is_ws, owned, str_eq, sub_vec,
    to_chars,
};

verus! {

/// The length of the word at the start of `s`.
pub open spec fn word_len(s: Seq<char>) -> nat
    decreases s.len(),
{
    if s.len() == 0 || is_ws(s[0]) {
        0
    } else {
        1 + word_len(s.drop_first())
    }
}

/// The words of `s`: its maximal runs of non-whitespace characters (std's
/// `str::split_whitespace`).
pub open spec fn words(s: Seq<char>) -> Seq<Seq<char>>
    decreases s.len(),
{
    if s.len() == 0 {
        Seq::empty()
    } else if is_ws(s[0]) {
        words(s.drop_first())
    } else {
        proof {
            lemma_word_len(s);
        }
        seq![s.take(word_len(s) as int)] + words(s.skip(word_len(s) as int))
    }
}

pub proof fn lemma_word_len(s: Seq<char>)
    ensures
        word_len(s) <= s.len(),
        s.len() > 0 && !is_ws(s[0]) ==> word_len(s) >= 1,
        forall|i: int| 0 <= i < word_len(s) ==> !is_ws(#[trigger] s[i]),
        word_len(s) < s.len() ==> is_ws(s[word_len(s) as int]),
    decreases s.len(),
{
    if s.len() > 0 && !is_ws(s[0]) {
        lemma_word_len(s.drop_first());
        assert forall|i: int| 0 <= i < word_len(s) implies !is_ws(#[trigger] s[i]) by {
            if i > 0 {
                assert(s[i] == s.drop_first()[i - 1]);
            }
        }
    }
}

proof fn lemma_word_len_at(s: Seq<char>, n: int)
    requires
        0 <= n <= s.len(),
        forall|i: int| 0 <= i < n ==> !is_ws(#[trigger] s[i]),
        n == s.len() || is_ws(s[n]),
    ensures
        word_len(s) == n,
    decreases s.len(),
{
    if n > 0 {
        assert forall|i: int| 0 <= i < n - 1 implies !is_ws(#[trigger] s.drop_first()[i]) by {
            assert(s.drop_first()[i] == s[i + 1]);
        }
        if n < s.len() {
            assert(s.drop_first()[n - 1] == s[n]);
        }
        lemma_word_len_at(s.drop_first(), n - 1);
    }
}

/// The words of `input`.
pub fn split_words(input: &str) -> (res: Vec<String>)
    ensures
        crate::text::texts(res@) == words(input@),
{
    let v = to_chars(input);
    let mut out: Vec<String> = Vec::new();
    let mut i: usize = 0;
    assert(v@.skip(0) =~= v@);
    while i < v.len()
        invariant
            i <= v@.len(),
            v@ == input@,
            crate::text::texts(out@) + words(v@.skip(i as int)) == words(input@),
        decreases v.len() - i,
    {
        let ghost rest = v@.skip(i as int);
        if is_whitespace_char(v[i]) {
            assert(rest.drop_first() =~= v@.skip(i + 1));
            i += 1;
        } else {
            let mut j: usize = i;
            while j < v.len() && !is_whitespace_char(v[j])
                invariant
                    i <= j <= v@.len(),
                    forall|t: int| i <= t < j ==> !is_ws(#[trigger] v@[t]),
                decreases v.len() - j,
            {
                j += 1;
            }
            proof {
                assert forall|t: int| 0 <= t < j - i implies !is_ws(#[trigger] rest[t]) by {
                    assert(rest[t] == v@[i + t]);
                }
                if j < v@.len() {
                    assert(rest[j - i] == v@[j as int]);
                }
                lemma_word_len_at(rest, j - i);
                assert(rest.take(j - i) =~= v@.subrange(i as int, j as int));
                assert(rest.skip(j - i) =~= v@.skip(j as int));
            }
            let word = from_chars(&sub_vec(&v, i, j));
            let ghost before = crate::text::texts(out@);
            out.push(word);
            proof {
                assert(crate::text::texts(out@) =~= before.push(rest.take(j - i)));
                assert(before + (seq![rest.take(j - i)] + words(v@.skip(j as int))) =~= crate::text::texts(
                    out@,
                ) + words(v@.skip(j as int)));
            }
            i = j;
        }
    }
    assert(v@.skip(i as int) =~= Seq::<char>::empty());
    assert(crate::text::texts(out@) + Seq::<Seq<char>>::empty() =~= crate::text::texts(out@));
    out
}

/// A command typed at the prompt.
#[derive(Debug)]
pub enum CliCommand {
    /// `/help`.
    Help,
    /// `/quit`.
    Quit,
    /// `/pwd`.
    Pwd,
    /// `/status`.
    Status,
    /// `/create <name>`.
    Create(String),
    /// `/session list` or `/sessions`.
    SessionList,
    /// `/session use <key>`.
    SessionUse(String),
    /// `/session info`.
    SessionInfo,
    /// `/session delete <key>`.
    SessionDelete(String),
    /// `/session restore <key>`.
    SessionRestore(String),
    /// `/workspace list`.
    WorkspaceList,
    /// `/workspace delete <key>`.
    WorkspaceDelete(String),
    /// `/workspace restore <key>`.
    WorkspaceRestore(String),
    /// `/audit list`.
    AuditList,
    /// `/recovery log`.
    RecoveryLog,
    /// `/event list`.
    EventList,
    /// `/memory list`.
    MemoryList,
    /// `/agent list`.
    AgentList,
    /// `/tool calls`.
    ToolCalls,
    /// `/tool results`.
    ToolResults,
    /// `/tool body <id>`.
    ToolBody(String),
    /// `/tool read <handle>`.
    ToolRead(String),
    /// `/models`.
    Models,
    /// `/model check <model>`.
    ModelCheck(String),
    /// `/mode`.
    Mode,
    /// `/cancel`.
    Cancel,
    /// `/clear`.
    Clear,
    /// Anything else.
    Unknown,
}

/// The command that the words `w` make.
pub open spec fn command_matches(w: Seq<Seq<char>>, c: CliCommand) -> bool {
    if w.len() == 1 && w[0] == "/help"@ {
        c is Help
    } else if w.len() == 1 && w[0] == "/quit"@ {
        c is Quit
    } else if w.len() == 1 && w[0] == "/pwd"@ {
        c is Pwd
    } else if w.len() == 1 && w[0] == "/status"@ {
        c is Status
    } else if w.len() == 2 && w[0] == "/create"@ {
        c matches CliCommand::Create(n) && n@ == w[1]
    } else if (w.len() == 2 && w[0] == "/session"@ && w[1] == "list"@) || (w.len() == 1 && w[0]
        == "/sessions"@) {
        c is SessionList
    } else if w.len() == 3 && w[0] == "/session"@ && w[1] == "use"@ {
        c matches CliCommand::SessionUse(k) && k@ == w[2]
    } else if w.len() == 2 && w[0] == "/session"@ && w[1] == "info"@ {
        c is SessionInfo
    } else if w.len() == 3 && w[0] == "/session"@ && w[1] == "delete"@ {
        c matches CliCommand::SessionDelete(k) && k@ == w[2]
    } else if w.len() == 3 && w[0] == "/session"@ && w[1] == "restore"@ {
        c matches CliCommand::SessionRestore(k) && k@ == w[2]
    } else if w.len() == 2 && w[0] == "/workspace"@ && w[1] == "list"@ {
        c is WorkspaceList
    } else if w.len() == 3 && w[0] == "/workspace"@ && w[1] == "delete"@ {
        c matches CliCommand::WorkspaceDelete(k) && k@ == w[2]
    } else if w.len() == 3 && w[0] == "/workspace"@ && w[1] == "restore"@ {
        c matches CliCommand::WorkspaceRestore(k) && k@ == w[2]
    } else if w.len() == 2 && w[0] == "/audit"@ && w[1] == "list"@ {
        c is AuditList
    } else if w.len() == 2 && w[0] == "/recovery"@ && w[1] == "log"@ {
        c is RecoveryLog
    } else if w.len() == 2 && w[0] == "/event"@ && w[1] == "list"@ {
        c is EventList
    } else if w.len() == 2 && w[0] == "/memory"@ && w[1] == "list"@ {
        c is MemoryList
    } else if w.len() == 2 && w[0] == "/agent"@ && w[1] == "list"@ {
        c is AgentList
    } else if w.len() == 2 && w[0] == "/tool"@ && w[1] == "calls"@ {
        c is ToolCalls
    } else if w.len() == 2 && w[0] == "/tool"@ && w[1] == "results"@ {
        c is ToolResults
    } else if w.len() == 3 && w[0] == "/tool"@ && w[1] == "body"@ {
        c matches CliCommand::ToolBody(k) && k@ == w[2]
    } else if w.len() == 3 && w[0] == "/tool"@ && w[1] == "read"@ {
        c matches CliCommand::ToolRead(k) && k@ == w[2]
    } else if w.len() == 1 && w[0] == "/models"@ {
        c is Models
    } else if w.len() == 3 && w[0] == "/model"@ && w[1] == "check"@ {
        c matches CliCommand::ModelCheck(k) && k@ == w[2]
    } else if w.len() == 1 && w[0] == "/mode"@ {
        c is Mode
    } else if w.len() == 1 && w[0] == "/cancel"@ {
        c is Cancel
    } else if w.len() == 1 && w[0] == "/clear"@ {
        c is Clear
    } else {
        c is Unknown
    }
}

/// The command typed as `input` (see `command_matches`).
pub fn parse_command(input: &str) -> (res: CliCommand)
    ensures
        command_matches(words(input@), res),
{
    let w = split_words(input);
    let n = w.len();
    let ghost ws = crate::text::texts(w@);
    assert(ws.len() == n);
    if n >= 1 {
        assert(ws[0] == w@[0]@);
    }
    if n >= 2 {
        assert(ws[1] == w@[1]@);
    }
    if n >= 3 {
        assert(ws[2] == w@[2]@);
    }
    if n == 1 {
        let a = w[0].as_str();
        if str_eq(a, "/help") {
            return CliCommand::Help;
        } else if str_eq(a, "/quit") {
            return CliCommand::Quit;
        } else if str_eq(a, "/pwd") {
            return CliCommand::Pwd;
        } else if str_eq(a, "/status") {
            return CliCommand::Status;
        } else if str_eq(a, "/sessions") {
            return CliCommand::SessionList;
        } else if str_eq(a, "/models") {
            return CliCommand::Models;
        } else if str_eq(a, "/mode") {
            return CliCommand::Mode;
        } else if str_eq(a, "/cancel") {
            return CliCommand::Cancel;
        } else if str_eq(a, "/clear") {
            return CliCommand::Clear;
        }
        return CliCommand::Unknown;
    }
    if n == 2 {
        let a = w[0].as_str();
        let b = w[1].as_str();
        if str_eq(a, "/create") {
            return CliCommand::Create(w[1].clone());
        } else if str_eq(a, "/session") && str_eq(b, "list") {
            return CliCommand::SessionList;
        } else if str_eq(a, "/session") && str_eq(b, "info") {
            return CliCommand::SessionInfo;
        } else if str_eq(a, "/workspace") && str_eq(b, "list") {
            return CliCommand::WorkspaceList;
        } else if str_eq(a, "/audit") && str_eq(b, "list") {
            return CliCommand::AuditList;
        } else if str_eq(a, "/recovery") && str_eq(b, "log") {
            return CliCommand::RecoveryLog;
        } else if str_eq(a, "/event") && str_eq(b, "list") {
            return CliCommand::EventList;
        } else if str_eq(a, "/memory") && str_eq(b, "list") {
            return CliCommand::MemoryList;
        } else if str_eq(a, "/agent") && str_eq(b, "list") {
            return CliCommand::AgentList;
        } else if str_eq(a, "/tool") && str_eq(b, "calls") {
            return CliCommand::ToolCalls;
        } else if str_eq(a, "/tool") && str_eq(b, "results") {
            return CliCommand::ToolResults;
        }
        return CliCommand::Unknown;
    }
    if n == 3 {
        let a = w[0].as_str();
        let b = w[1].as_str();
        let k = w[2].clone();
        if str_eq(a, "/session") && str_eq(b, "use") {
            return CliCommand::SessionUse(k);
        } else if str_eq(a, "/session") && str_eq(b, "delete") {
            return CliCommand::SessionDelete(k);
        } else if str_eq(a, "/session") && str_eq(b, "restore") {
            return CliCommand::SessionRestore(k);
        } else if str_eq(a, "/workspace") && str_eq(b, "delete") {
            return CliCommand::WorkspaceDelete(k);
        } else if str_eq(a, "/workspace") && str_eq(b, "restore") {
            return CliCommand::WorkspaceRestore(k);
        } else if str_eq(a, "/tool") && str_eq(b, "body") {
            return CliCommand::ToolBody(k);
        } else if str_eq(a, "/tool") && str_eq(b, "read") {
            return CliCommand::ToolRead(k);
        } else if str_eq(a, "/model") && str_eq(b, "check") {
            return CliCommand::ModelCheck(k);
        }
        return CliCommand::Unknown;
    }
    CliCommand::Unknown
}

/// How the program runs.
#[derive(Debug)]
pub enum AppMode {
    /// The interactive prompt.
    Cli,
    /// The HTTP server on this host and port.
    Serve {
        /// Host.
        host: String,
        /// Port.
        port: u16,
    },
}

/// std's `u16::from_str`: an optional `+` and at least one decimal digit, within `u16`.
pub open spec fn u16_of(v: Seq<char>) -> Option<u16> {
    match crate::settings::u64_of(v) {
        Some(n) => if n <= u16::MAX {
            Some(n as u16)
        } else {
            None
        },
        None => None,
    }
}

/// `value.parse::<u16>().ok()` (std's `u16::from_str`).
#[verifier::external_body]
fn parse_u16(value: &str) -> (res: Option<u16>)
    ensures
        res == u16_of(value@),
{
    value.parse::<u16>().ok()
}

/// The first position of `flag` in `args`.
pub open spec fn flag_index(args: Seq<Seq<char>>, flag: Seq<char>, i: int) -> Option<int>
    decreases args.len() - i,
{
    if i < 0 || i >= args.len() {
        None
    } else if args[i] == flag {
        Some(i)
    } else {
        flag_index(args, flag, i + 1)
    }
}

/// The argument after the first `flag`, if there is one.
pub open spec fn flag_value(args: Seq<Seq<char>>, flag: Seq<char>) -> Option<Seq<char>> {
    match flag_index(args, flag, 0) {
        Some(i) => if i + 1 < args.len() {
            Some(args[i + 1])
        } else {
            None
        },
        None => None,
    }
}

/// The mode chosen by the program's arguments: the server for a first argument `serve`,
/// on the host after `--host` (default `127.0.0.1`) and the port after `--port` when it is
/// one (default 8080); else the prompt.
pub open spec fn mode_matches(args: Seq<Seq<char>>, m: AppMode) -> bool {
    if args.len() == 0 || args[0] != "serve"@ {
        m is Cli
    } else {
        m matches AppMode::Serve { host, port } && host@ == match flag_value(args, "--host"@) {
            Some(h) => h,
            None => "127.0.0.1"@,
        } && port == match flag_value(args, "--port"@) {
            Some(p) => match u16_of(p) {
                Some(n) => n,
                None => 8080,
            },
            None => 8080,
        }
    }
}

fn find_flag(args: &Vec<String>, flag: &str) -> (res: Option<String>)
    ensures
        match flag_value(crate::text::texts(args@), flag@) {
            Some(v) => res matches Some(r) && r@ == v,
            None => res is None,
        },
{
    let ghost a = crate::text::texts(args@);
    let mut i: usize = 0;
    while i < args.len()
        invariant
            i <= args@.len(),
            a == crate::text::texts(args@),
            flag_index(a, flag@, 0) == flag_index(a, flag@, i as int),
        decreases args.len() - i,
    {
        if str_eq(args[i].as_str(), flag) {
            assert(flag_index(a, flag@, i as int) == Some(i as int));
            if i + 1 < args.len() {
                assert(a[i + 1] == args@[i + 1]@);
                return Some(args[i + 1].clone());
            }
            return None;
        }
        i += 1;
    }
    None
}

/// The mode chosen by the program's arguments (see `mode_matches`).
pub fn parse_mode(args: &Vec<String>) -> (res: AppMode)
    ensures
        mode_matches(crate::text::texts(args@), res),
{
    if args.len() == 0 || !str_eq(args[0].as_str(), "serve") {
        return AppMode::Cli;
    }
    let host = match find_flag(args, "--host") {
        Some(h) => h,
        None => owned("127.0.0.1"),
    };
    let port = match find_flag(args, "--port") {
        Some(p) => match parse_u16(p.as_str()) {
            Some(n) => n,
            None => 8080,
        },
        None => 8080,
    };
    AppMode::Serve { host, port }
}

/// The HTTP status of a server error: 404 when the message says that something was not
/// found or does not exist, 500 otherwise.
pub open spec fn error_status_of(message: Seq<char>) -> u16 {
    if contains_seq(message, "未找到"@) || contains_seq(message, "不存在"@) {
        404
    } else {
        500
    }
}

/// The HTTP status of a server error (see `error_status_of`).
pub fn error_status(message: &str) -> (res: u16)
    ensures
        res == error_status_of(message@),
{
    if contains_str(message, "未找到") || contains_str(message, "不存在") {
        404
    } else {
        500
    }
}

} // verus!
