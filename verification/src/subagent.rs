//! Sub-agents of a session: how many may exist, how deep they may nest, and how their
//! records change when they are opened, run and closed.

use vstd::prelude::*;

use crate::records::{AgentInstance, AgentMode, AgentStatus};
use crate::text::{
    concat2, concat3, ellipsis_truncated, extend_str, from_chars, owned, str_eq, to_chars,
    texts, truncate_ellipsis,
};
use crate::util::{new_uuid, now_rfc3339, sha256_hex, sha256_hex_of, utc_timestamp};

verus! {

/// The most sub-agents a session may have.
pub const DEFAULT_MAX_TOTAL: usize = 5;

/// The deepest a sub-agent may nest.
pub const DEFAULT_MAX_LEVEL: i32 = 2;

/// The lower-case hexadecimal digit of `d` (below sixteen).
pub open spec fn hex_digit(d: int) -> char {
    if d < 10 {
        ('0' as int + d) as char
    } else {
        ('a' as int + d - 10) as char
    }
}

/// How serde_json writes the character `c` inside a string: a quote, a backslash and the
/// control characters below U+0020 are escaped (`\b`, `\t`, `\n`, `\f`, `\r`, else
/// `\u00` and two hexadecimal digits); every other character stands for itself.
pub open spec fn json_char(c: char) -> Seq<char> {
    if c == '"' {
        seq!['\\', '"']
    } else if c == '\\' {
        seq!['\\', '\\']
    } else if c == '\u{8}' {
        seq!['\\', 'b']
    } else if c == '\t' {
        seq!['\\', 't']
    } else if c == '\n' {
        seq!['\\', 'n']
    } else if c == '\u{c}' {
        seq!['\\', 'f']
    } else if c == '\r' {
        seq!['\\', 'r']
    } else if (c as int) < 0x20 {
        seq!['\\', 'u', '0', '0', hex_digit((c as int) / 16), hex_digit((c as int) % 16)]
    } else {
        seq![c]
    }
}

/// The characters of `s`, each as serde_json writes it inside a string.
pub open spec fn json_escaped(s: Seq<char>) -> Seq<char>
    decreases s.len(),
{
    if s.len() == 0 {
        Seq::empty()
    } else {
        json_escaped(s.drop_last()) + json_char(s.last())
    }
}

/// The JSON string of `s`.
pub open spec fn json_string(s: Seq<char>) -> Seq<char> {
    seq!['"'] + json_escaped(s) + seq!['"']
}

/// The JSON strings of `items`, separated by commas.
pub open spec fn json_items(items: Seq<Seq<char>>) -> Seq<char>
    decreases items.len(),
{
    if items.len() == 0 {
        Seq::empty()
    } else if items.len() == 1 {
        json_string(items[0])
    } else {
        json_items(items.drop_last()) + seq![','] + json_string(items.last())
    }
}

/// The JSON text of a list of strings, as `serde_json::to_string` writes a `Vec<String>`: in
/// square brackets, separated by commas, with no spaces.
pub open spec fn json_strings_of(items: Seq<Seq<char>>) -> Seq<char> {
    seq!['['] + json_items(items) + seq![']']
}

/// `serde_json::to_string` of a list of strings, which cannot fail for strings.
#[verifier::external_body]
fn json_strings(items: &Vec<String>) -> (res: String)
    ensures
        res@ == json_strings_of(texts(items@)),
{
    serde_json::to_string(items).unwrap_or_default()
}

/// `Path::join` of a directory and a name, as text (std's `Path::join` and
/// `to_string_lossy`). Nothing is claimed: the separator depends on the platform.
#[verifier::external_body]
fn join_path(base: &str, part: &str) -> (res: String) {
    std::path::Path::new(base).join(part).to_string_lossy().to_string()
}

/// The sub-agents of a session directory.
pub struct SubagentManager {
    /// The parent session's directory.
    pub session_dir: String,
}

/// The position of the agent `id` in `agents`.
pub open spec fn agent_index(agents: Seq<AgentInstance>, id: Seq<char>, i: int) -> Option<int>
    decreases agents.len() - i,
{
    if i < 0 || i >= agents.len() {
        None
    } else if agents[i].id@ == id {
        Some(i)
    } else {
        agent_index(agents, id, i + 1)
    }
}

proof fn lemma_agent_index(agents: Seq<AgentInstance>, id: Seq<char>, i: int)
    requires
        0 <= i,
    ensures
        agent_index(agents, id, i) matches Some(k) ==> i <= k < agents.len() && agents[k].id@ == id,
    decreases agents.len() - i,
{
    if i < agents.len() && agents[i].id@ != id {
        lemma_agent_index(agents, id, i + 1);
    }
}

/// The level of a new agent under `parent`, or the error that refuses it: at most five
/// agents, a parent that exists, and at most two levels.
pub open spec fn open_level(agents: Seq<AgentInstance>, parent: Option<Seq<char>>) -> Result<
    int,
    Seq<char>,
> {
    if agents.len() >= 5 {
        Err("子 Agent 总数超过上限 5，当前无法继续创建"@)
    } else {
        match parent {
            None => Ok(1),
            Some(p) => match agent_index(agents, p, 0) {
                None => Err("未找到父 Agent："@ + p),
                Some(i) => if agents[i].level + 1 > 2 {
                    Err("子 Agent 层级超过上限 2，当前无法继续创建"@)
                } else {
                    Ok(agents[i].level + 1)
                },
            },
        }
    }
}

/// The mode named by an `agent_open` request: `isolate` or `Isolate` isolates, anything else
/// inherits.
pub open spec fn agent_mode_named(mode: Seq<char>) -> AgentMode {
    if mode == "isolate"@ || mode == "Isolate"@ {
        AgentMode::Isolate
    } else {
        AgentMode::Inherit
    }
}

/// The text of a boolean.
pub open spec fn flag_text(b: bool) -> Seq<char> {
    if b {
        "true"@
    } else {
        "false"@
    }
}

/// The summary recorded for an evaluation of agent `id` with input text `input`.
pub open spec fn eval_summary(id: Seq<char>, input: Seq<char>) -> Seq<char> {
    "已记录子 Agent 任务执行请求，Agent="@ + id + "，输入摘要="@ + ellipsis_truncated(input, 80)
}

/// The error for an unknown agent.
pub open spec fn unknown_agent(id: Seq<char>) -> Seq<char> {
    "未找到子 Agent："@ + id
}

/// The position of the agent `id`.
fn find_agent(agents: &Vec<AgentInstance>, id: &str) -> (res: Option<usize>)
    ensures
        res matches Some(r) ==> agent_index(agents@, id@, 0) == Some(r as int) && r < agents@.len()
            && agents@[r as int].id@ == id@,
        res is None ==> agent_index(agents@, id@, 0) is None,
{
    proof {
        lemma_agent_index(agents@, id@, 0);
    }
    let mut i: usize = 0;
    while i < agents.len()
        invariant
            i <= agents@.len(),
            agent_index(agents@, id@, 0) == agent_index(agents@, id@, i as int),
        decreases agents.len() - i,
    {
        if str_eq(agents[i].id.as_str(), id) {
            return Some(i);
        }
        i += 1;
    }
    None
}

/// The mode named by an `agent_open` request.
pub fn agent_mode_from(mode: &str) -> (res: AgentMode)
    ensures
        res == agent_mode_named(mode@),
{
    if str_eq(mode, "isolate") || str_eq(mode, "Isolate") {
        AgentMode::Isolate
    } else {
        AgentMode::Inherit
    }
}

/// The level a new agent under `parent_agent_id` would have, or why it may not be opened.
pub fn open_level_for(agents: &Vec<AgentInstance>, parent_agent_id: Option<&str>) -> (res: Result<
    i32,
    String,
>)
    ensures
        match open_level(
            agents@,
            match parent_agent_id {
                Some(p) => Some(p@),
                None => None,
            },
        ) {
            Ok(l) => res == Ok::<i32, String>(l as i32),
            Err(msg) => res matches Err(m) && m@ == msg,
        },
{
    if agents.len() >= DEFAULT_MAX_TOTAL {
        return Err(owned("子 Agent 总数超过上限 5，当前无法继续创建"));
    }
    match parent_agent_id {
        None => Ok(1),
        Some(p) => match find_agent(agents, p) {
            None => Err(concat2("未找到父 Agent：", p)),
            Some(i) => {
                if agents[i].level >= DEFAULT_MAX_LEVEL {
                    Err(owned("子 Agent 层级超过上限 2，当前无法继续创建"))
                } else {
                    Ok(agents[i].level + 1)
                }
            },
        },
    }
}

impl SubagentManager {
    /// The sub-agents of `session_dir`.
    pub fn new(session_dir: String) -> (res: SubagentManager)
        ensures
            res.session_dir == session_dir,
    {
        SubagentManager { session_dir }
    }

    /// Opens a sub-agent on the roster `agents` with the given identifiers, directory and
    /// time: refused as `open_level` says; else an open agent joins the roster, with the
    /// mode named, its level, the session directory's name (or `unknown-session`) as its
    /// parent session, and the hash of `inherit:task:paths` as its constraint hash.
    pub fn open_at(
        &self,
        agents: &mut Vec<AgentInstance>,
        mode: &str,
        inherit_context: bool,
        allowed_paths: &Vec<String>,
        task_spec_json: &str,
        parent_agent_id: Option<String>,
        dir_name: Option<&str>,
        id: String,
        child_session_id: String,
        agent_dir: String,
        now: &str,
    ) -> (res: Result<AgentInstance, String>)
        ensures
            match open_level(
                old(agents)@,
                match parent_agent_id {
                    Some(p) => Some(p@),
                    None => None,
                },
            ) {
                Err(msg) => (res matches Err(m) && m@ == msg) && final(agents)@ == old(agents)@,
                Ok(level) => res matches Ok(a) && {
                    &&& final(agents)@ == old(agents)@.push(a)
                    &&& a.id == id
                    &&& a.parent_session_id@ == match dir_name {
                        Some(n) => n@,
                        None => "unknown-session"@,
                    }
                    &&& a.parent_agent_id == parent_agent_id
                    &&& a.mode == agent_mode_named(mode@)
                    &&& a.inherit_context == inherit_context
                    &&& a.level == level
                    &&& a.status == AgentStatus::Open
                    &&& a.session_dir == agent_dir
                    &&& a.child_session_id == child_session_id
                    &&& a.allowed_paths_json@ == json_strings_of(texts(allowed_paths@))
                    &&& a.task_spec_json@ == task_spec_json@
                    &&& a.constraint_hash@ == sha256_hex_of(
                        flag_text(inherit_context) + ":"@ + task_spec_json@ + ":"@
                            + json_strings_of(texts(allowed_paths@)),
                    )
                    &&& a.result_summary@.len() == 0
                    &&& a.created_at@ == now@
                    &&& a.updated_at@ == now@
                },
            },
    {
        let level = match &parent_agent_id {
            Some(p) => open_level_for(agents, Some(p.as_str())),
            None => open_level_for(agents, None),
        };
        let level = match level {
            Ok(l) => l,
            Err(msg) => {
                return Err(msg);
            },
        };
        let paths_json = json_strings(allowed_paths);
        let mut basis = to_chars(if inherit_context {
            "true"
        } else {
            "false"
        });
        extend_str(&mut basis, ":");
        extend_str(&mut basis, task_spec_json);
        extend_str(&mut basis, ":");
        extend_str(&mut basis, paths_json.as_str());
        let basis = from_chars(&basis);
        proof {
            reveal_strlit("");
        }
        let agent = AgentInstance {
            id,
            parent_session_id: match dir_name {
                Some(n) => owned(n),
                None => owned("unknown-session"),
            },
            parent_agent_id,
            mode: agent_mode_from(mode),
            inherit_context,
            level,
            status: AgentStatus::Open,
            session_dir: agent_dir,
            child_session_id,
            allowed_paths_json: paths_json,
            task_spec_json: owned(task_spec_json),
            constraint_hash: sha256_hex(basis.as_str()),
            result_summary: owned(""),
            created_at: owned(now),
            updated_at: owned(now),
        };
        let copy = clone_agent(&agent);
        agents.push(copy);
        Ok(agent)
    }

    /// Opens a sub-agent (see `open_at`) with fresh identifiers, in a directory of its own
    /// under the session's, now.
    pub fn open(
        &self,
        agents: &mut Vec<AgentInstance>,
        mode: &str,
        inherit_context: bool,
        allowed_paths: &Vec<String>,
        task_spec_json: &str,
        parent_agent_id: Option<String>,
        dir_name: Option<&str>,
    ) -> (res: Result<AgentInstance, String>)
        ensures
            match open_level(
                old(agents)@,
                match parent_agent_id {
                    Some(p) => Some(p@),
                    None => None,
                },
            ) {
                Err(msg) => (res matches Err(m) && m@ == msg) && final(agents)@ == old(agents)@,
                Ok(level) => res matches Ok(a) && {
                    &&& final(agents)@ == old(agents)@.push(a)
                    &&& a.parent_session_id@ == match dir_name {
                        Some(n) => n@,
                        None => "unknown-session"@,
                    }
                    &&& a.parent_agent_id == parent_agent_id
                    &&& a.mode == agent_mode_named(mode@)
                    &&& a.inherit_context == inherit_context
                    &&& a.level == level
                    &&& a.status == AgentStatus::Open
                    &&& a.allowed_paths_json@ == json_strings_of(texts(allowed_paths@))
                    &&& a.task_spec_json@ == task_spec_json@
                    &&& a.constraint_hash@ == sha256_hex_of(
                        flag_text(inherit_context) + ":"@ + task_spec_json@ + ":"@
                            + json_strings_of(texts(allowed_paths@)),
                    )
                    &&& a.result_summary@.len() == 0
                    &&& a.updated_at@ == a.created_at@
                    &&& utc_timestamp(a.created_at@)
                },
            },
    {
        let id = new_uuid();
        let child = new_uuid();
        let tools = join_path(self.session_dir.as_str(), ".tools");
        let root = join_path(tools.as_str(), "agent");
        let agent_dir = join_path(root.as_str(), id.as_str());
        let now = now_rfc3339();
        self.open_at(
            agents,
            mode,
            inherit_context,
            allowed_paths,
            task_spec_json,
            parent_agent_id,
            dir_name,
            id,
            child,
            agent_dir,
            now.as_str(),
        )
    }

    /// Records an evaluation request for agent `agent_id` with input text `input_text` at
    /// time `now`: the agent is done, with the summary `eval_summary`, which is returned.
    pub fn eval_at(&self, agents: &mut Vec<AgentInstance>, agent_id: &str, input_text: &str, now: &str) -> (res:
        Result<String, String>)
        ensures
            match agent_index(old(agents)@, agent_id@, 0) {
                None => (res matches Err(m) && m@ == unknown_agent(agent_id@)) && final(agents)@
                    == old(agents)@,
                Some(i) => res matches Ok(summary) && {
                    &&& summary@ == eval_summary(agent_id@, input_text@)
                    &&& final(agents)@.len() == old(agents)@.len()
                    &&& forall|j: int|
                        0 <= j < old(agents)@.len() && j != i ==> final(agents)@[j] == old(
                            agents,
                        )@[j]
                    &&& final(agents)@[i] == AgentInstance {
                        status: AgentStatus::Done,
                        result_summary: final(agents)@[i].result_summary,
                        updated_at: final(agents)@[i].updated_at,
                        ..old(agents)@[i]
                    }
                    &&& final(agents)@[i].result_summary@ == summary@
                    &&& final(agents)@[i].updated_at@ == now@
                },
            },
    {
        let found = find_agent(agents, agent_id);
        if found.is_none() {
            return Err(concat2("未找到子 Agent：", agent_id));
        }
        let i = found.unwrap();

        let short = truncate_ellipsis(input_text, 80);
        let mut v = to_chars("已记录子 Agent 任务执行请求，Agent=");
        extend_str(&mut v, agent_id);
        extend_str(&mut v, "，输入摘要=");
        extend_str(&mut v, short.as_str());
        let summary = from_chars(&v);
        let mut agent = clone_agent(&agents[i]);
        agent.status = AgentStatus::Done;
        agent.result_summary = summary.clone();
        agent.updated_at = owned(now);
        agents.set(i, agent);
        Ok(summary)
    }

    /// Closes agent `agent_id` at time `now` and returns its record.
    pub fn close_at(&self, agents: &mut Vec<AgentInstance>, agent_id: &str, now: &str) -> (res: Result<
        AgentInstance,
        String,
    >)
        ensures
            match agent_index(old(agents)@, agent_id@, 0) {
                None => (res matches Err(m) && m@ == unknown_agent(agent_id@)) && final(agents)@
                    == old(agents)@,
                Some(i) => res matches Ok(a) && {
                    &&& final(agents)@ == old(agents)@.update(i, a)
                    &&& a == AgentInstance {
                        status: AgentStatus::Closed,
                        updated_at: a.updated_at,
                        ..old(agents)@[i]
                    }
                    &&& a.updated_at@ == now@
                },
            },
    {
        let found = find_agent(agents, agent_id);
        if found.is_none() {
            return Err(concat2("未找到子 Agent：", agent_id));
        }
        let i = found.unwrap();

        let mut agent = clone_agent(&agents[i]);
        agent.status = AgentStatus::Closed;
        agent.updated_at = owned(now);
        let copy = clone_agent(&agent);
        agents.set(i, copy);
        Ok(agent)
    }

    /// Closes agent `agent_id` now (see `close_at`).
    pub fn close(&self, agents: &mut Vec<AgentInstance>, agent_id: &str) -> (res: Result<
        AgentInstance,
        String,
    >)
        ensures
            match agent_index(old(agents)@, agent_id@, 0) {
                None => (res matches Err(m) && m@ == unknown_agent(agent_id@)) && final(agents)@
                    == old(agents)@,
                Some(i) => res matches Ok(a) && {
                    &&& final(agents)@ == old(agents)@.update(i, a)
                    &&& a == AgentInstance {
                        status: AgentStatus::Closed,
                        updated_at: a.updated_at,
                        ..old(agents)@[i]
                    }
                    &&& utc_timestamp(a.updated_at@)
                },
            },
    {
        let now = now_rfc3339();
        self.close_at(agents, agent_id, now.as_str())
    }
}

/// A copy of an agent record.
pub fn clone_agent(a: &AgentInstance) -> (res: AgentInstance)
    ensures
        res == *a,
{
    AgentInstance {
        id: a.id.clone(),
        parent_session_id: a.parent_session_id.clone(),
        parent_agent_id: match &a.parent_agent_id {
            Some(p) => Some(p.clone()),
            None => None,
        },
        mode: a.mode,
        inherit_context: a.inherit_context,
        level: a.level,
        status: a.status,
        session_dir: a.session_dir.clone(),
        child_session_id: a.child_session_id.clone(),
        allowed_paths_json: a.allowed_paths_json.clone(),
        task_spec_json: a.task_spec_json.clone(),
        constraint_hash: a.constraint_hash.clone(),
        result_summary: a.result_summary.clone(),
        created_at: a.created_at.clone(),
        updated_at: a.updated_at.clone(),
    }
}

} // verus!
