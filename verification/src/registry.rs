//! The tools the model may call: their definitions, the registry that holds them, and
//! which of them are shown to the model in a given context.

use vstd::prelude::*;

use crate::records::ToolRiskLevel;
use crate::text::{ascii_lower, concat2, contains_seq, contains_str, owned, str_eq, to_ascii_lowercase};

verus! {

/// A tool as the model sees it.
#[derive(Debug)]
pub struct ToolDefinition {
    /// Name.
    pub name: String,
    /// Description.
    pub description: String,
    /// Parameter schema as JSON text.
    pub parameters_schema: String,
    /// Risk level.
    pub risk_level: ToolRiskLevel,
    /// Whether the model is shown the tool.
    pub visible_to_model: bool,
}

/// The contents of a tool definition as plain values.
pub struct ToolDefView {
    /// Name.
    pub name: Seq<char>,
    /// Description.
    pub description: Seq<char>,
    /// Parameter schema as JSON text.
    pub schema: Seq<char>,
    /// Risk level.
    pub risk: ToolRiskLevel,
    /// Whether the model is shown the tool.
    pub visible: bool,
}

impl View for ToolDefinition {
    type V = ToolDefView;

    open spec fn view(&self) -> ToolDefView {
        ToolDefView {
            name: self.name@,
            description: self.description@,
            schema: self.parameters_schema@,
            risk: self.risk_level,
            visible: self.visible_to_model,
        }
    }
}

impl Clone for ToolDefinition {
    fn clone(&self) -> (res: Self)
        ensures
            res@ == self@,
    {
        ToolDefinition {
            name: self.name.clone(),
            description: self.description.clone(),
            parameters_schema: self.parameters_schema.clone(),
            risk_level: self.risk_level,
            visible_to_model: self.visible_to_model,
        }
    }
}

/// The contents of a list of definitions.
pub open spec fn defs_view(defs: Seq<ToolDefinition>) -> Seq<ToolDefView> {
    defs.map_values(|d: ToolDefinition| d@)
}

/// A visible tool with the given name, description, schema and risk.
pub open spec fn tool_view(
    name: Seq<char>,
    description: Seq<char>,
    schema: Seq<char>,
    risk: ToolRiskLevel,
) -> ToolDefView {
    ToolDefView { name, description, schema, risk, visible: true }
}

/// A visible tool definition.
fn tool_definition(
    name: &str,
    description: &str,
    parameters_schema: &str,
    risk_level: ToolRiskLevel,
) -> (res: ToolDefinition)
    ensures
        res@ == tool_view(name@, description@, parameters_schema@, risk_level),
{
    ToolDefinition {
        name: owned(name),
        description: owned(description),
        parameters_schema: owned(parameters_schema),
        risk_level,
        visible_to_model: true,
    }
}

/// The built-in tools, in registration order.
pub open spec fn default_catalog() -> Seq<ToolDefView> {
    seq![
        tool_view("read_file"@, "读取 UTF-8 文本文件内容。"@, "{\"additionalProperties\":false,\"properties\":{\"path\":{\"description\":\"目标文件路径\",\"type\":\"string\"}},\"required\":[\"path\"],\"type\":\"object\"}"@, ToolRiskLevel::ReadOnly),
        tool_view("write_file"@, "写入文件，支持整文件覆盖或 replace_range 按行替换。"@, "{\"additionalProperties\":false,\"properties\":{\"content\":{\"description\":\"整文件写入内容\",\"type\":\"string\"},\"path\":{\"description\":\"目标文件路径\",\"type\":\"string\"},\"replace_range\":{\"additionalProperties\":false,\"properties\":{\"end_line\":{\"type\":\"integer\"},\"new_content\":{\"type\":\"string\"},\"start_line\":{\"type\":\"integer\"}},\"required\":[\"start_line\",\"end_line\",\"new_content\"],\"type\":\"object\"}},\"required\":[\"path\"],\"type\":\"object\"}"@, ToolRiskLevel::Write),
        tool_view("run_shell"@, "在 PowerShell 中执行命令。"@, "{\"additionalProperties\":false,\"properties\":{\"command\":{\"description\":\"待执行命令\",\"type\":\"string\"},\"timeout_ms\":{\"description\":\"超时时间，毫秒\",\"type\":\"integer\"},\"working_directory\":{\"description\":\"执行目录\",\"type\":\"string\"}},\"required\":[\"command\"],\"type\":\"object\"}"@, ToolRiskLevel::Execute),
        tool_view("edit_file"@, "单文件查找替换，支持 replace_all。"@, "{\"additionalProperties\":false,\"properties\":{\"new_text\":{\"description\":\"新文本\",\"type\":\"string\"},\"old_text\":{\"description\":\"待替换旧文本\",\"type\":\"string\"},\"path\":{\"description\":\"目标文件路径\",\"type\":\"string\"},\"replace_all\":{\"description\":\"是否替换全部匹配\",\"type\":\"boolean\"}},\"required\":[\"path\",\"old_text\",\"new_text\"],\"type\":\"object\"}"@, ToolRiskLevel::Write),
        tool_view("list_dir"@, "列目录，支持隐藏文件开关。"@, "{\"additionalProperties\":false,\"properties\":{\"include_hidden\":{\"description\":\"是否包含隐藏文件\",\"type\":\"boolean\"},\"path\":{\"description\":\"可选目录路径\",\"type\":\"string\"}},\"type\":\"object\"}"@, ToolRiskLevel::ReadOnly),
        tool_view("file_search"@, "按文件名关键字递归搜索。"@, "{\"additionalProperties\":false,\"properties\":{\"limit\":{\"description\":\"可选返回数量上限\",\"type\":\"integer\"},\"query\":{\"description\":\"文件名关键字\",\"type\":\"string\"},\"root_path\":{\"description\":\"可选搜索根目录\",\"type\":\"string\"}},\"required\":[\"query\"],\"type\":\"object\"}"@, ToolRiskLevel::ReadOnly),
        tool_view("grep_files"@, "在工作区递归按正则搜索内容。"@, "{\"additionalProperties\":false,\"properties\":{\"limit\":{\"description\":\"可选返回数量上限\",\"type\":\"integer\"},\"pattern\":{\"description\":\"正则表达式\",\"type\":\"string\"},\"root_path\":{\"description\":\"可选搜索根目录\",\"type\":\"string\"}},\"required\":[\"pattern\"],\"type\":\"object\"}"@, ToolRiskLevel::ReadOnly),
        tool_view("rlm_open"@, "启动一个可复用的持久交互进程。"@, "{\"additionalProperties\":false,\"properties\":{\"working_directory\":{\"description\":\"可选工作目录\",\"type\":\"string\"}},\"type\":\"object\"}"@, ToolRiskLevel::Execute),
        tool_view("rlm_eval"@, "向持久交互进程发送命令并读取输出。"@, "{\"additionalProperties\":false,\"properties\":{\"command\":{\"description\":\"待执行命令\",\"type\":\"string\"},\"process_id\":{\"description\":\"持久进程标识\",\"type\":\"string\"}},\"required\":[\"process_id\",\"command\"],\"type\":\"object\"}"@, ToolRiskLevel::Execute),
        tool_view("rlm_configure"@, "调整持久交互进程配置，例如切换工作目录。"@, "{\"additionalProperties\":false,\"properties\":{\"process_id\":{\"description\":\"持久进程标识\",\"type\":\"string\"},\"working_directory\":{\"description\":\"新的工作目录\",\"type\":\"string\"}},\"required\":[\"process_id\"],\"type\":\"object\"}"@, ToolRiskLevel::Execute),
        tool_view("rlm_close"@, "关闭持久交互进程并释放资源。"@, "{\"additionalProperties\":false,\"properties\":{\"process_id\":{\"description\":\"持久进程标识\",\"type\":\"string\"}},\"required\":[\"process_id\"],\"type\":\"object\"}"@, ToolRiskLevel::Execute),
        tool_view("load_skill"@, "按名称或路径加载目标 SKILL.md 正文。"@, "{\"additionalProperties\":false,\"properties\":{\"identifier\":{\"description\":\"Skill 名称或路径\",\"type\":\"string\"}},\"required\":[\"identifier\"],\"type\":\"object\"}"@, ToolRiskLevel::ReadOnly),
        tool_view("read_tool_result"@, "根据 tool:{id} 句柄读取已外置的工具结果。"@, "{\"additionalProperties\":false,\"properties\":{\"handle\":{\"description\":\"工具结果句柄，例如 tool:call_xxx\",\"type\":\"string\"}},\"required\":[\"handle\"],\"type\":\"object\"}"@, ToolRiskLevel::ReadOnly),
        tool_view("retrieve_tool_result"@, "按工具调用编号读取摘要、头部、尾部、切片或关键字上下文。"@, "{\"additionalProperties\":false,\"properties\":{\"context_chars\":{\"description\":\"关键字前后保留的字符数\",\"type\":\"integer\"},\"keyword\":{\"description\":\"keyword_context 模式下的关键字\",\"type\":\"string\"},\"length_chars\":{\"description\":\"slice 模式下的读取字符数\",\"type\":\"integer\"},\"mode\":{\"description\":\"summary、head、tail、body、slice、keyword_context\",\"type\":\"string\"},\"start_char\":{\"description\":\"slice 模式下的起始字符偏移\",\"type\":\"integer\"},\"tool_call_id\":{\"description\":\"工具调用编号\",\"type\":\"string\"}},\"required\":[\"tool_call_id\"],\"type\":\"object\"}"@, ToolRiskLevel::ReadOnly),
        tool_view("handle_read"@, "按 tool: 或 file: 句柄读取受限内容。"@, "{\"additionalProperties\":false,\"properties\":{\"handle\":{\"description\":\"tool: 或 file: 句柄\",\"type\":\"string\"},\"max_chars\":{\"description\":\"可选最大返回字符数\",\"type\":\"integer\"}},\"required\":[\"handle\"],\"type\":\"object\"}"@, ToolRiskLevel::ReadOnly),
        tool_view("fetch_url"@, "抓取指定 URL 的文本内容。"@, "{\"additionalProperties\":false,\"properties\":{\"url\":{\"description\":\"目标 URL\",\"type\":\"string\"}},\"required\":[\"url\"],\"type\":\"object\"}"@, ToolRiskLevel::Network),
        tool_view("web_search"@, "执行网络搜索并返回结构化结果列表。"@, "{\"additionalProperties\":false,\"properties\":{\"limit\":{\"description\":\"返回结果数量上限\",\"type\":\"integer\"},\"query\":{\"description\":\"搜索关键字\",\"type\":\"string\"}},\"required\":[\"query\"],\"type\":\"object\"}"@, ToolRiskLevel::Network),
        tool_view("web_run"@, "执行基础网页步骤，包括 open、click、find、extract_text。"@, "{\"additionalProperties\":false,\"properties\":{\"steps\":{\"items\":{\"additionalProperties\":true,\"properties\":{\"action\":{\"type\":\"string\"},\"pattern\":{\"type\":\"string\"},\"selector\":{\"type\":\"string\"},\"text_contains\":{\"type\":\"string\"},\"url\":{\"type\":\"string\"}},\"required\":[\"action\"],\"type\":\"object\"},\"type\":\"array\"}},\"required\":[\"steps\"],\"type\":\"object\"}"@, ToolRiskLevel::Network),
        tool_view("github_get"@, "调用 GitHub REST API 的只读 GET 接口。"@, "{\"additionalProperties\":false,\"properties\":{\"endpoint\":{\"description\":\"GitHub API 相对路径，例如 /repos/owner/repo/issues\",\"type\":\"string\"}},\"required\":[\"endpoint\"],\"type\":\"object\"}"@, ToolRiskLevel::Network),
        tool_view("discover_mcp_servers"@, "发现并列出当前工作区可用的 MCP 服务端配置。"@, "{\"additionalProperties\":false,\"properties\":{},\"type\":\"object\"}"@, ToolRiskLevel::ReadOnly),
        tool_view("connect_mcp_server"@, "连接指定 MCP 服务端并读取能力信息。"@, "{\"additionalProperties\":false,\"properties\":{\"server_id\":{\"description\":\"MCP 服务端标识\",\"type\":\"string\"}},\"required\":[\"server_id\"],\"type\":\"object\"}"@, ToolRiskLevel::Network),
        tool_view("call_mcp_tool"@, "调用指定 MCP 服务端上的远程工具。"@, "{\"additionalProperties\":false,\"properties\":{\"arguments\":{\"description\":\"远程工具参数\",\"type\":\"object\"},\"server_id\":{\"description\":\"MCP 服务端标识\",\"type\":\"string\"},\"tool_name\":{\"description\":\"远程工具名称\",\"type\":\"string\"}},\"required\":[\"server_id\",\"tool_name\",\"arguments\"],\"type\":\"object\"}"@, ToolRiskLevel::Network),
        tool_view("agent_open"@, "创建子 Agent，并记录隔离或继承模式约束。"@, "{\"additionalProperties\":false,\"properties\":{\"allowed_paths\":{\"items\":{\"type\":\"string\"},\"type\":\"array\"},\"inherit_context\":{\"description\":\"是否继承上下文\",\"type\":\"boolean\"},\"mode\":{\"description\":\"inherit 或 isolate\",\"type\":\"string\"},\"parent_agent_id\":{\"description\":\"可选父 Agent 标识\",\"type\":\"string\"},\"task_spec\":{\"description\":\"任务约束快照\",\"type\":\"object\"}},\"required\":[\"mode\",\"task_spec\"],\"type\":\"object\"}"@, ToolRiskLevel::Agent),
        tool_view("agent_eval"@, "向已创建的子 Agent 派发执行请求。"@, "{\"additionalProperties\":false,\"properties\":{\"agent_id\":{\"description\":\"子 Agent 标识\",\"type\":\"string\"},\"input\":{\"description\":\"执行输入\"}},\"required\":[\"agent_id\",\"input\"],\"type\":\"object\"}"@, ToolRiskLevel::Agent),
        tool_view("agent_close"@, "关闭指定子 Agent。"@, "{\"additionalProperties\":false,\"properties\":{\"agent_id\":{\"description\":\"子 Agent 标识\",\"type\":\"string\"}},\"required\":[\"agent_id\"],\"type\":\"object\"}"@, ToolRiskLevel::Agent),
        tool_view("plan_write"@, "写入或更新当前会话下的计划文档。"@, "{\"additionalProperties\":false,\"properties\":{\"content\":{\"description\":\"计划正文内容\",\"type\":\"string\"},\"plan_type\":{\"description\":\"计划类型，例如 implementation 或 review\",\"type\":\"string\"}},\"required\":[\"plan_type\",\"content\"],\"type\":\"object\"}"@, ToolRiskLevel::Write),
        tool_view("task_create"@, "创建会话内任务记录。"@, "{\"additionalProperties\":false,\"properties\":{\"command\":{\"description\":\"任务命令\",\"type\":\"string\"},\"name\":{\"description\":\"任务名称\",\"type\":\"string\"},\"validation_command\":{\"description\":\"可选验证命令\",\"type\":\"string\"}},\"required\":[\"name\",\"command\"],\"type\":\"object\"}"@, ToolRiskLevel::Write),
        tool_view("task_run"@, "执行已创建的会话任务。"@, "{\"additionalProperties\":false,\"properties\":{\"task_id\":{\"description\":\"任务标识\",\"type\":\"string\"},\"timeout_ms\":{\"description\":\"可选超时时间\",\"type\":\"integer\"}},\"required\":[\"task_id\"],\"type\":\"object\"}"@, ToolRiskLevel::Execute),
        tool_view("automation_create"@, "创建自动化记录。"@, "{\"additionalProperties\":false,\"properties\":{\"definition\":{\"description\":\"自动化定义\",\"type\":\"object\"},\"kind\":{\"description\":\"自动化类型\",\"type\":\"string\"},\"name\":{\"description\":\"自动化名称\",\"type\":\"string\"},\"status\":{\"description\":\"状态，例如 active 或 paused\",\"type\":\"string\"}},\"required\":[\"name\",\"kind\",\"status\",\"definition\"],\"type\":\"object\"}"@, ToolRiskLevel::Write),
        tool_view("automation_run_once"@, "立刻执行一次自动化。"@, "{\"additionalProperties\":false,\"properties\":{\"automation_id\":{\"description\":\"自动化标识\",\"type\":\"string\"},\"timeout_ms\":{\"description\":\"可选超时时间\",\"type\":\"integer\"}},\"required\":[\"automation_id\"],\"type\":\"object\"}"@, ToolRiskLevel::Execute),
    ]
}

/// The first position at or after `i` of a tool named `name`.
pub open spec fn find_tool(defs: Seq<ToolDefView>, name: Seq<char>, i: int) -> Option<int>
    decreases defs.len() - i,
{
    if i < 0 || i >= defs.len() {
        None
    } else if defs[i].name == name {
        Some(i)
    } else {
        find_tool(defs, name, i + 1)
    }
}

/// The definitions after registering `d`: it replaces the tool of the same name, or is added
/// at the end.
pub open spec fn registered(defs: Seq<ToolDefView>, d: ToolDefView) -> Seq<ToolDefView> {
    match find_tool(defs, d.name, 0) {
        Some(i) => defs.update(i, d),
        None => defs.push(d),
    }
}

/// No two tools share a name.
pub open spec fn names_unique(defs: Seq<ToolDefView>) -> bool {
    forall|i: int, j: int|
        0 <= i < defs.len() && 0 <= j < defs.len() && i != j ==> defs[i].name != defs[j].name
}

/// The error for an unknown tool.
pub open spec fn unknown_tool_message(name: Seq<char>) -> Seq<char> {
    "未注册的工具："@ + name
}

/// Some keyword occurs in `text`.
pub open spec fn any_keyword(text: Seq<char>, keywords: Seq<Seq<char>>) -> bool {
    exists|i: int| 0 <= i < keywords.len() && contains_seq(text, #[trigger] keywords[i])
}

/// The tools that reach the network.
pub open spec fn is_network_name(name: Seq<char>) -> bool {
    name == "fetch_url"@ || name == "web_search"@ || name == "web_run"@ || name == "github_get"@
}

/// Whether the tool `name` is shown to the model, given the lower-cased context, whether
/// exposure adapts to it, the network and plug-in switches, and whether GitHub access is on.
pub open spec fn tool_exposed(
    name: Seq<char>,
    ctx: Seq<char>,
    adaptive: bool,
    allow_network: bool,
    allow_plugin_tool: bool,
    github_enabled: bool,
) -> bool {
    if !adaptive {
        if name == "github_get"@ {
            github_enabled
        } else if is_network_name(name) {
            allow_network
        } else {
            true
        }
    } else if name == "fetch_url"@ || name == "web_search"@ || name == "web_run"@ {
        allow_network
    } else if name == "github_get"@ {
        github_enabled && any_keyword(ctx, seq!["github"@, "pr"@, "issue"@])
    } else if name == "automation_create"@ || name == "automation_run_once"@ {
        any_keyword(ctx, seq!["automation"@, "cron"@, "heartbeat"@, "自动化"@, "定时"@])
    } else if name == "agent_open"@ || name == "agent_eval"@ || name == "agent_close"@ {
        allow_plugin_tool && any_keyword(ctx, seq!["agent"@, "subagent"@, "子代理"@, "子 agent"@])
    } else if name == "rlm_open"@ || name == "rlm_eval"@ || name == "rlm_configure"@ || name
        == "rlm_close"@ {
        any_keyword(ctx, seq!["rlm"@, "推理机"@])
    } else {
        true
    }
}

/// The visible tools of `defs` that are exposed, in order.
pub open spec fn exposed_tools(
    defs: Seq<ToolDefView>,
    ctx: Seq<char>,
    adaptive: bool,
    allow_network: bool,
    allow_plugin_tool: bool,
    github_enabled: bool,
) -> Seq<ToolDefView>
    decreases defs.len(),
{
    if defs.len() == 0 {
        Seq::empty()
    } else {
        let rest = exposed_tools(
            defs.drop_last(),
            ctx,
            adaptive,
            allow_network,
            allow_plugin_tool,
            github_enabled,
        );
        let d = defs.last();
        if d.visible && tool_exposed(
            d.name,
            ctx,
            adaptive,
            allow_network,
            allow_plugin_tool,
            github_enabled,
        ) {
            rest.push(d)
        } else {
            rest
        }
    }
}

proof fn lemma_find_tool_char(defs: Seq<ToolDefView>, n: Seq<char>, i: int)
    requires
        0 <= i,
    ensures
        find_tool(defs, n, i) matches Some(k) ==> i <= k < defs.len() && defs[k].name == n
            && forall|j: int| i <= j < k ==> defs[j].name != n,
        find_tool(defs, n, i) is None ==> forall|j: int| i <= j < defs.len() ==> defs[j].name != n,
    decreases defs.len() - i,
{
    if i < defs.len() && defs[i].name != n {
        lemma_find_tool_char(defs, n, i + 1);
    }
}

proof fn lemma_find_tool_first(defs: Seq<ToolDefView>, n: Seq<char>, i: int, k: int)
    requires
        0 <= i <= k < defs.len(),
        defs[k].name == n,
        forall|j: int| i <= j < k ==> defs[j].name != n,
    ensures
        find_tool(defs, n, i) == Some(k),
    decreases k - i,
{
    if i < k {
        lemma_find_tool_first(defs, n, i + 1, k);
    }
}

/// After registering a tool, looking its name up finds exactly that tool.
pub proof fn law_get_after_register(defs: Seq<ToolDefView>, d: ToolDefView)
    ensures
        find_tool(registered(defs, d), d.name, 0) matches Some(k) && registered(defs, d)[k] == d,
{
    lemma_find_tool_char(defs, d.name, 0);
    let r = registered(defs, d);
    match find_tool(defs, d.name, 0) {
        Some(i) => {
            lemma_find_tool_first(r, d.name, 0, i);
        },
        None => {
            lemma_find_tool_first(r, d.name, 0, defs.len() as int);
        },
    }
}

/// Registering a tool keeps the other tools' lookups: a name other than the registered
/// one finds the same tool as before.
pub proof fn law_register_keeps_others(defs: Seq<ToolDefView>, d: ToolDefView, n: Seq<char>)
    requires
        n != d.name,
    ensures
        find_tool(defs, n, 0) matches Some(k) ==> find_tool(registered(defs, d), n, 0) == Some(k)
            && registered(defs, d)[k] == defs[k],
        find_tool(defs, n, 0) is None ==> find_tool(registered(defs, d), n, 0) is None,
{
    lemma_find_tool_char(defs, n, 0);
    lemma_find_tool_char(defs, d.name, 0);
    let r = registered(defs, d);
    lemma_find_tool_char(r, n, 0);
    match find_tool(defs, n, 0) {
        Some(k) => {
            lemma_find_tool_first(r, n, 0, k);
        },
        None => {
            match find_tool(r, n, 0) {
                Some(k) => {
                    assert(r[k].name == n);
                },
                None => {},
            }
        },
    }
}

/// Registering keeps tool names unique.
pub proof fn law_register_keeps_names_unique(defs: Seq<ToolDefView>, d: ToolDefView)
    requires
        names_unique(defs),
    ensures
        names_unique(registered(defs, d)),
{
    lemma_find_tool_char(defs, d.name, 0);
}

/// What tells the built-in names apart: the length, the first character and the seventh.
spec fn name_key(s: Seq<char>) -> (nat, char, char) {
    (s.len(), s[0], s[6])
}

/// The key of each built-in name.
proof fn lemma_default_keys()
    ensures
        name_key(default_catalog()[0].name) == (9nat, 'r', 'i'),
        name_key(default_catalog()[1].name) == (10nat, 'w', 'f'),
        name_key(default_catalog()[2].name) == (9nat, 'r', 'e'),
        name_key(default_catalog()[3].name) == (9nat, 'e', 'i'),
        name_key(default_catalog()[4].name) == (8nat, 'l', 'i'),
        name_key(default_catalog()[5].name) == (11nat, 'f', 'e'),
        name_key(default_catalog()[6].name) == (10nat, 'g', 'i'),
        name_key(default_catalog()[7].name) == (8nat, 'r', 'e'),
        name_key(default_catalog()[8].name) == (8nat, 'r', 'a'),
        name_key(default_catalog()[9].name) == (13nat, 'r', 'n'),
        name_key(default_catalog()[10].name) == (9nat, 'r', 'o'),
        name_key(default_catalog()[11].name) == (10nat, 'l', 'k'),
        name_key(default_catalog()[12].name) == (16nat, 'r', 'o'),
        name_key(default_catalog()[13].name) == (20nat, 'r', 'v'),
        name_key(default_catalog()[14].name) == (11nat, 'h', '_'),
        name_key(default_catalog()[15].name) == (9nat, 'f', 'u'),
        name_key(default_catalog()[16].name) == (10nat, 'w', 'a'),
        name_key(default_catalog()[17].name) == (7nat, 'w', 'n'),
        name_key(default_catalog()[18].name) == (10nat, 'g', '_'),
        name_key(default_catalog()[19].name) == (20nat, 'd', 'e'),
        name_key(default_catalog()[20].name) == (18nat, 'c', 't'),
        name_key(default_catalog()[21].name) == (13nat, 'c', 'c'),
        name_key(default_catalog()[22].name) == (10nat, 'a', 'o'),
        name_key(default_catalog()[23].name) == (10nat, 'a', 'e'),
        name_key(default_catalog()[24].name) == (11nat, 'a', 'c'),
        name_key(default_catalog()[25].name) == (10nat, 'p', 'r'),
        name_key(default_catalog()[26].name) == (11nat, 't', 'r'),
        name_key(default_catalog()[27].name) == (8nat, 't', 'u'),
        name_key(default_catalog()[28].name) == (17nat, 'a', 't'),
        name_key(default_catalog()[29].name) == (19nat, 'a', 't'),
{
    reveal_strlit("agent_close");
    reveal_strlit("agent_eval");
    reveal_strlit("agent_open");
    reveal_strlit("automation_create");
    reveal_strlit("automation_run_once");
    reveal_strlit("call_mcp_tool");
    reveal_strlit("connect_mcp_server");
    reveal_strlit("discover_mcp_servers");
    reveal_strlit("edit_file");
    reveal_strlit("fetch_url");
    reveal_strlit("file_search");
    reveal_strlit("github_get");
    reveal_strlit("grep_files");
    reveal_strlit("handle_read");
    reveal_strlit("list_dir");
    reveal_strlit("load_skill");
    reveal_strlit("plan_write");
    reveal_strlit("read_file");
    reveal_strlit("read_tool_result");
    reveal_strlit("retrieve_tool_result");
    reveal_strlit("rlm_close");
    reveal_strlit("rlm_configure");
    reveal_strlit("rlm_eval");
    reveal_strlit("rlm_open");
    reveal_strlit("run_shell");
    reveal_strlit("task_create");
    reveal_strlit("task_run");
    reveal_strlit("web_run");
    reveal_strlit("web_search");
    reveal_strlit("write_file");
}

/// The built-in tools have distinct names.
pub proof fn law_default_names_unique()
    ensures
        names_unique(default_catalog()),
{
    lemma_default_keys();
    let cat = default_catalog();
    assert(name_absent_from(cat, cat[29].name, 30)) by {
        reveal_with_fuel(name_absent_from, 31);
    }
    assert(name_absent_from(cat, cat[28].name, 29)) by {
        reveal_with_fuel(name_absent_from, 31);
    }
    assert(name_absent_from(cat, cat[27].name, 28)) by {
        reveal_with_fuel(name_absent_from, 31);
    }
    assert(name_absent_from(cat, cat[26].name, 27)) by {
        reveal_with_fuel(name_absent_from, 31);
    }
    assert(name_absent_from(cat, cat[25].name, 26)) by {
        reveal_with_fuel(name_absent_from, 31);
    }
    assert(name_absent_from(cat, cat[24].name, 25)) by {
        reveal_with_fuel(name_absent_from, 31);
    }
    assert(name_absent_from(cat, cat[23].name, 24)) by {
        reveal_with_fuel(name_absent_from, 31);
    }
    assert(name_absent_from(cat, cat[22].name, 23)) by {
        reveal_with_fuel(name_absent_from, 31);
    }
    assert(name_absent_from(cat, cat[21].name, 22)) by {
        reveal_with_fuel(name_absent_from, 31);
    }
    assert(name_absent_from(cat, cat[20].name, 21)) by {
        reveal_with_fuel(name_absent_from, 31);
    }
    assert(name_absent_from(cat, cat[19].name, 20)) by {
        reveal_with_fuel(name_absent_from, 31);
    }
    assert(name_absent_from(cat, cat[18].name, 19)) by {
        reveal_with_fuel(name_absent_from, 31);
    }
    assert(name_absent_from(cat, cat[17].name, 18)) by {
        reveal_with_fuel(name_absent_from, 31);
    }
    assert(name_absent_from(cat, cat[16].name, 17)) by {
        reveal_with_fuel(name_absent_from, 31);
    }
    assert(name_absent_from(cat, cat[15].name, 16)) by {
        reveal_with_fuel(name_absent_from, 31);
    }
    assert(name_absent_from(cat, cat[14].name, 15)) by {
        reveal_with_fuel(name_absent_from, 31);
    }
    assert(name_absent_from(cat, cat[13].name, 14)) by {
        reveal_with_fuel(name_absent_from, 31);
    }
    assert(name_absent_from(cat, cat[12].name, 13)) by {
        reveal_with_fuel(name_absent_from, 31);
    }
    assert(name_absent_from(cat, cat[11].name, 12)) by {
        reveal_with_fuel(name_absent_from, 31);
    }
    assert(name_absent_from(cat, cat[10].name, 11)) by {
        reveal_with_fuel(name_absent_from, 31);
    }
    assert(name_absent_from(cat, cat[9].name, 10)) by {
        reveal_with_fuel(name_absent_from, 31);
    }
    assert(name_absent_from(cat, cat[8].name, 9)) by {
        reveal_with_fuel(name_absent_from, 31);
    }
    assert(name_absent_from(cat, cat[7].name, 8)) by {
        reveal_with_fuel(name_absent_from, 31);
    }
    assert(name_absent_from(cat, cat[6].name, 7)) by {
        reveal_with_fuel(name_absent_from, 31);
    }
    assert(name_absent_from(cat, cat[5].name, 6)) by {
        reveal_with_fuel(name_absent_from, 31);
    }
    assert(name_absent_from(cat, cat[4].name, 5)) by {
        reveal_with_fuel(name_absent_from, 31);
    }
    assert(name_absent_from(cat, cat[3].name, 4)) by {
        reveal_with_fuel(name_absent_from, 31);
    }
    assert(name_absent_from(cat, cat[2].name, 3)) by {
        reveal_with_fuel(name_absent_from, 31);
    }
    assert(name_absent_from(cat, cat[1].name, 2)) by {
        reveal_with_fuel(name_absent_from, 31);
    }
    assert(name_absent_from(cat, cat[0].name, 1)) by {
        reveal_with_fuel(name_absent_from, 31);
    }
    assert(distinct_names_from(cat, 30));
    assert(distinct_names_from(cat, 29));
    assert(distinct_names_from(cat, 28));
    assert(distinct_names_from(cat, 27));
    assert(distinct_names_from(cat, 26));
    assert(distinct_names_from(cat, 25));
    assert(distinct_names_from(cat, 24));
    assert(distinct_names_from(cat, 23));
    assert(distinct_names_from(cat, 22));
    assert(distinct_names_from(cat, 21));
    assert(distinct_names_from(cat, 20));
    assert(distinct_names_from(cat, 19));
    assert(distinct_names_from(cat, 18));
    assert(distinct_names_from(cat, 17));
    assert(distinct_names_from(cat, 16));
    assert(distinct_names_from(cat, 15));
    assert(distinct_names_from(cat, 14));
    assert(distinct_names_from(cat, 13));
    assert(distinct_names_from(cat, 12));
    assert(distinct_names_from(cat, 11));
    assert(distinct_names_from(cat, 10));
    assert(distinct_names_from(cat, 9));
    assert(distinct_names_from(cat, 8));
    assert(distinct_names_from(cat, 7));
    assert(distinct_names_from(cat, 6));
    assert(distinct_names_from(cat, 5));
    assert(distinct_names_from(cat, 4));
    assert(distinct_names_from(cat, 3));
    assert(distinct_names_from(cat, 2));
    assert(distinct_names_from(cat, 1));
    assert(distinct_names_from(cat, 0));
    lemma_distinct_names(cat, 0);
}

/// No name at or after `i` occurs again later.
pub open spec fn distinct_names_from(defs: Seq<ToolDefView>, i: int) -> bool
    decreases defs.len() - i,
{
    if i < 0 || i >= defs.len() {
        true
    } else {
        name_absent_from(defs, defs[i].name, i + 1) && distinct_names_from(defs, i + 1)
    }
}

/// No tool at or after `j` has the name `n`.
pub open spec fn name_absent_from(defs: Seq<ToolDefView>, n: Seq<char>, j: int) -> bool
    decreases defs.len() - j,
{
    if j < 0 || j >= defs.len() {
        true
    } else {
        defs[j].name != n && name_absent_from(defs, n, j + 1)
    }
}

proof fn lemma_name_absent(defs: Seq<ToolDefView>, n: Seq<char>, j: int)
    requires
        0 <= j,
        name_absent_from(defs, n, j),
    ensures
        forall|k: int| j <= k < defs.len() ==> defs[k].name != n,
    decreases defs.len() - j,
{
    if j < defs.len() {
        lemma_name_absent(defs, n, j + 1);
    }
}

proof fn lemma_distinct_names(defs: Seq<ToolDefView>, i: int)
    requires
        0 <= i,
        distinct_names_from(defs, i),
    ensures
        forall|a: int, b: int|
            i <= a < defs.len() && i <= b < defs.len() && a != b ==> defs[a].name != defs[b].name,
    decreases defs.len() - i,
{
    if i < defs.len() {
        lemma_distinct_names(defs, i + 1);
        lemma_name_absent(defs, defs[i].name, i + 1);
    }
}

/// Whether some keyword occurs in `text`.
pub fn contains_any_keyword(text: &str, keywords: &[&str]) -> (res: bool)
    ensures
        res == any_keyword(text@, keywords@.map_values(|k: &str| k@)),
{
    let ghost kws = keywords@.map_values(|k: &str| k@);
    let mut i: usize = 0;
    while i < keywords.len()
        invariant
            i <= keywords@.len(),
            kws == keywords@.map_values(|k: &str| k@),
            forall|j: int| 0 <= j < i ==> !contains_seq(text@, #[trigger] kws[j]),
        decreases keywords.len() - i,
    {
        if contains_str(text, keywords[i]) {
            assert(contains_seq(text@, kws[i as int]));
            return true;
        }
        i += 1;
    }
    false
}

/// Whether `name` is one of the tools that reach the network.
pub fn is_network_tool(name: &str) -> (res: bool)
    ensures
        res == is_network_name(name@),
{
    str_eq(name, "fetch_url") || str_eq(name, "web_search") || str_eq(name, "web_run") || str_eq(
        name,
        "github_get",
    )
}

/// The registered tools, in registration order.
pub struct ToolRegistry {
    tools: Vec<ToolDefinition>,
}

impl View for ToolRegistry {
    type V = Seq<ToolDefView>;

    closed spec fn view(&self) -> Seq<ToolDefView> {
        defs_view(self.tools@)
    }
}

impl ToolRegistry {
    /// The registry of the built-in tools.
    pub fn with_defaults() -> (res: ToolRegistry)
        ensures
            res@ == default_catalog(),
    {
        let tools = vec![
        tool_definition(
            "read_file",
            "读取 UTF-8 文本文件内容。",
            "{\"additionalProperties\":false,\"properties\":{\"path\":{\"description\":\"目标文件路径\",\"type\":\"string\"}},\"required\":[\"path\"],\"type\":\"object\"}",
            ToolRiskLevel::ReadOnly,
        ),
        tool_definition(
            "write_file",
            "写入文件，支持整文件覆盖或 replace_range 按行替换。",
            "{\"additionalProperties\":false,\"properties\":{\"content\":{\"description\":\"整文件写入内容\",\"type\":\"string\"},\"path\":{\"description\":\"目标文件路径\",\"type\":\"string\"},\"replace_range\":{\"additionalProperties\":false,\"properties\":{\"end_line\":{\"type\":\"integer\"},\"new_content\":{\"type\":\"string\"},\"start_line\":{\"type\":\"integer\"}},\"required\":[\"start_line\",\"end_line\",\"new_content\"],\"type\":\"object\"}},\"required\":[\"path\"],\"type\":\"object\"}",
            ToolRiskLevel::Write,
        ),
        tool_definition(
            "run_shell",
            "在 PowerShell 中执行命令。",
            "{\"additionalProperties\":false,\"properties\":{\"command\":{\"description\":\"待执行命令\",\"type\":\"string\"},\"timeout_ms\":{\"description\":\"超时时间，毫秒\",\"type\":\"integer\"},\"working_directory\":{\"description\":\"执行目录\",\"type\":\"string\"}},\"required\":[\"command\"],\"type\":\"object\"}",
            ToolRiskLevel::Execute,
        ),
        tool_definition(
            "edit_file",
            "单文件查找替换，支持 replace_all。",
            "{\"additionalProperties\":false,\"properties\":{\"new_text\":{\"description\":\"新文本\",\"type\":\"string\"},\"old_text\":{\"description\":\"待替换旧文本\",\"type\":\"string\"},\"path\":{\"description\":\"目标文件路径\",\"type\":\"string\"},\"replace_all\":{\"description\":\"是否替换全部匹配\",\"type\":\"boolean\"}},\"required\":[\"path\",\"old_text\",\"new_text\"],\"type\":\"object\"}",
            ToolRiskLevel::Write,
        ),
        tool_definition(
            "list_dir",
            "列目录，支持隐藏文件开关。",
            "{\"additionalProperties\":false,\"properties\":{\"include_hidden\":{\"description\":\"是否包含隐藏文件\",\"type\":\"boolean\"},\"path\":{\"description\":\"可选目录路径\",\"type\":\"string\"}},\"type\":\"object\"}",
            ToolRiskLevel::ReadOnly,
        ),
        tool_definition(
            "file_search",
            "按文件名关键字递归搜索。",
            "{\"additionalProperties\":false,\"properties\":{\"limit\":{\"description\":\"可选返回数量上限\",\"type\":\"integer\"},\"query\":{\"description\":\"文件名关键字\",\"type\":\"string\"},\"root_path\":{\"description\":\"可选搜索根目录\",\"type\":\"string\"}},\"required\":[\"query\"],\"type\":\"object\"}",
            ToolRiskLevel::ReadOnly,
        ),
        tool_definition(
            "grep_files",
            "在工作区递归按正则搜索内容。",
            "{\"additionalProperties\":false,\"properties\":{\"limit\":{\"description\":\"可选返回数量上限\",\"type\":\"integer\"},\"pattern\":{\"description\":\"正则表达式\",\"type\":\"string\"},\"root_path\":{\"description\":\"可选搜索根目录\",\"type\":\"string\"}},\"required\":[\"pattern\"],\"type\":\"object\"}",
            ToolRiskLevel::ReadOnly,
        ),
        tool_definition(
            "rlm_open",
            "启动一个可复用的持久交互进程。",
            "{\"additionalProperties\":false,\"properties\":{\"working_directory\":{\"description\":\"可选工作目录\",\"type\":\"string\"}},\"type\":\"object\"}",
            ToolRiskLevel::Execute,
        ),
        tool_definition(
            "rlm_eval",
            "向持久交互进程发送命令并读取输出。",
            "{\"additionalProperties\":false,\"properties\":{\"command\":{\"description\":\"待执行命令\",\"type\":\"string\"},\"process_id\":{\"description\":\"持久进程标识\",\"type\":\"string\"}},\"required\":[\"process_id\",\"command\"],\"type\":\"object\"}",
            ToolRiskLevel::Execute,
        ),
        tool_definition(
            "rlm_configure",
            "调整持久交互进程配置，例如切换工作目录。",
            "{\"additionalProperties\":false,\"properties\":{\"process_id\":{\"description\":\"持久进程标识\",\"type\":\"string\"},\"working_directory\":{\"description\":\"新的工作目录\",\"type\":\"string\"}},\"required\":[\"process_id\"],\"type\":\"object\"}",
            ToolRiskLevel::Execute,
        ),
        tool_definition(
            "rlm_close",
            "关闭持久交互进程并释放资源。",
            "{\"additionalProperties\":false,\"properties\":{\"process_id\":{\"description\":\"持久进程标识\",\"type\":\"string\"}},\"required\":[\"process_id\"],\"type\":\"object\"}",
            ToolRiskLevel::Execute,
        ),
        tool_definition(
            "load_skill",
            "按名称或路径加载目标 SKILL.md 正文。",
            "{\"additionalProperties\":false,\"properties\":{\"identifier\":{\"description\":\"Skill 名称或路径\",\"type\":\"string\"}},\"required\":[\"identifier\"],\"type\":\"object\"}",
            ToolRiskLevel::ReadOnly,
        ),
        tool_definition(
            "read_tool_result",
            "根据 tool:{id} 句柄读取已外置的工具结果。",
            "{\"additionalProperties\":false,\"properties\":{\"handle\":{\"description\":\"工具结果句柄，例如 tool:call_xxx\",\"type\":\"string\"}},\"required\":[\"handle\"],\"type\":\"object\"}",
            ToolRiskLevel::ReadOnly,
        ),
        tool_definition(
            "retrieve_tool_result",
            "按工具调用编号读取摘要、头部、尾部、切片或关键字上下文。",
            "{\"additionalProperties\":false,\"properties\":{\"context_chars\":{\"description\":\"关键字前后保留的字符数\",\"type\":\"integer\"},\"keyword\":{\"description\":\"keyword_context 模式下的关键字\",\"type\":\"string\"},\"length_chars\":{\"description\":\"slice 模式下的读取字符数\",\"type\":\"integer\"},\"mode\":{\"description\":\"summary、head、tail、body、slice、keyword_context\",\"type\":\"string\"},\"start_char\":{\"description\":\"slice 模式下的起始字符偏移\",\"type\":\"integer\"},\"tool_call_id\":{\"description\":\"工具调用编号\",\"type\":\"string\"}},\"required\":[\"tool_call_id\"],\"type\":\"object\"}",
            ToolRiskLevel::ReadOnly,
        ),
        tool_definition(
            "handle_read",
            "按 tool: 或 file: 句柄读取受限内容。",
            "{\"additionalProperties\":false,\"properties\":{\"handle\":{\"description\":\"tool: 或 file: 句柄\",\"type\":\"string\"},\"max_chars\":{\"description\":\"可选最大返回字符数\",\"type\":\"integer\"}},\"required\":[\"handle\"],\"type\":\"object\"}",
            ToolRiskLevel::ReadOnly,
        ),
        tool_definition(
            "fetch_url",
            "抓取指定 URL 的文本内容。",
            "{\"additionalProperties\":false,\"properties\":{\"url\":{\"description\":\"目标 URL\",\"type\":\"string\"}},\"required\":[\"url\"],\"type\":\"object\"}",
            ToolRiskLevel::Network,
        ),
        tool_definition(
            "web_search",
            "执行网络搜索并返回结构化结果列表。",
            "{\"additionalProperties\":false,\"properties\":{\"limit\":{\"description\":\"返回结果数量上限\",\"type\":\"integer\"},\"query\":{\"description\":\"搜索关键字\",\"type\":\"string\"}},\"required\":[\"query\"],\"type\":\"object\"}",
            ToolRiskLevel::Network,
        ),
        tool_definition(
            "web_run",
            "执行基础网页步骤，包括 open、click、find、extract_text。",
            "{\"additionalProperties\":false,\"properties\":{\"steps\":{\"items\":{\"additionalProperties\":true,\"properties\":{\"action\":{\"type\":\"string\"},\"pattern\":{\"type\":\"string\"},\"selector\":{\"type\":\"string\"},\"text_contains\":{\"type\":\"string\"},\"url\":{\"type\":\"string\"}},\"required\":[\"action\"],\"type\":\"object\"},\"type\":\"array\"}},\"required\":[\"steps\"],\"type\":\"object\"}",
            ToolRiskLevel::Network,
        ),
        tool_definition(
            "github_get",
            "调用 GitHub REST API 的只读 GET 接口。",
            "{\"additionalProperties\":false,\"properties\":{\"endpoint\":{\"description\":\"GitHub API 相对路径，例如 /repos/owner/repo/issues\",\"type\":\"string\"}},\"required\":[\"endpoint\"],\"type\":\"object\"}",
            ToolRiskLevel::Network,
        ),
        tool_definition(
            "discover_mcp_servers",
            "发现并列出当前工作区可用的 MCP 服务端配置。",
            "{\"additionalProperties\":false,\"properties\":{},\"type\":\"object\"}",
            ToolRiskLevel::ReadOnly,
        ),
        tool_definition(
            "connect_mcp_server",
            "连接指定 MCP 服务端并读取能力信息。",
            "{\"additionalProperties\":false,\"properties\":{\"server_id\":{\"description\":\"MCP 服务端标识\",\"type\":\"string\"}},\"required\":[\"server_id\"],\"type\":\"object\"}",
            ToolRiskLevel::Network,
        ),
        tool_definition(
            "call_mcp_tool",
            "调用指定 MCP 服务端上的远程工具。",
            "{\"additionalProperties\":false,\"properties\":{\"arguments\":{\"description\":\"远程工具参数\",\"type\":\"object\"},\"server_id\":{\"description\":\"MCP 服务端标识\",\"type\":\"string\"},\"tool_name\":{\"description\":\"远程工具名称\",\"type\":\"string\"}},\"required\":[\"server_id\",\"tool_name\",\"arguments\"],\"type\":\"object\"}",
            ToolRiskLevel::Network,
        ),
        tool_definition(
            "agent_open",
            "创建子 Agent，并记录隔离或继承模式约束。",
            "{\"additionalProperties\":false,\"properties\":{\"allowed_paths\":{\"items\":{\"type\":\"string\"},\"type\":\"array\"},\"inherit_context\":{\"description\":\"是否继承上下文\",\"type\":\"boolean\"},\"mode\":{\"description\":\"inherit 或 isolate\",\"type\":\"string\"},\"parent_agent_id\":{\"description\":\"可选父 Agent 标识\",\"type\":\"string\"},\"task_spec\":{\"description\":\"任务约束快照\",\"type\":\"object\"}},\"required\":[\"mode\",\"task_spec\"],\"type\":\"object\"}",
            ToolRiskLevel::Agent,
        ),
        tool_definition(
            "agent_eval",
            "向已创建的子 Agent 派发执行请求。",
            "{\"additionalProperties\":false,\"properties\":{\"agent_id\":{\"description\":\"子 Agent 标识\",\"type\":\"string\"},\"input\":{\"description\":\"执行输入\"}},\"required\":[\"agent_id\",\"input\"],\"type\":\"object\"}",
            ToolRiskLevel::Agent,
        ),
        tool_definition(
            "agent_close",
            "关闭指定子 Agent。",
            "{\"additionalProperties\":false,\"properties\":{\"agent_id\":{\"description\":\"子 Agent 标识\",\"type\":\"string\"}},\"required\":[\"agent_id\"],\"type\":\"object\"}",
            ToolRiskLevel::Agent,
        ),
        tool_definition(
            "plan_write",
            "写入或更新当前会话下的计划文档。",
            "{\"additionalProperties\":false,\"properties\":{\"content\":{\"description\":\"计划正文内容\",\"type\":\"string\"},\"plan_type\":{\"description\":\"计划类型，例如 implementation 或 review\",\"type\":\"string\"}},\"required\":[\"plan_type\",\"content\"],\"type\":\"object\"}",
            ToolRiskLevel::Write,
        ),
        tool_definition(
            "task_create",
            "创建会话内任务记录。",
            "{\"additionalProperties\":false,\"properties\":{\"command\":{\"description\":\"任务命令\",\"type\":\"string\"},\"name\":{\"description\":\"任务名称\",\"type\":\"string\"},\"validation_command\":{\"description\":\"可选验证命令\",\"type\":\"string\"}},\"required\":[\"name\",\"command\"],\"type\":\"object\"}",
            ToolRiskLevel::Write,
        ),
        tool_definition(
            "task_run",
            "执行已创建的会话任务。",
            "{\"additionalProperties\":false,\"properties\":{\"task_id\":{\"description\":\"任务标识\",\"type\":\"string\"},\"timeout_ms\":{\"description\":\"可选超时时间\",\"type\":\"integer\"}},\"required\":[\"task_id\"],\"type\":\"object\"}",
            ToolRiskLevel::Execute,
        ),
        tool_definition(
            "automation_create",
            "创建自动化记录。",
            "{\"additionalProperties\":false,\"properties\":{\"definition\":{\"description\":\"自动化定义\",\"type\":\"object\"},\"kind\":{\"description\":\"自动化类型\",\"type\":\"string\"},\"name\":{\"description\":\"自动化名称\",\"type\":\"string\"},\"status\":{\"description\":\"状态，例如 active 或 paused\",\"type\":\"string\"}},\"required\":[\"name\",\"kind\",\"status\",\"definition\"],\"type\":\"object\"}",
            ToolRiskLevel::Write,
        ),
        tool_definition(
            "automation_run_once",
            "立刻执行一次自动化。",
            "{\"additionalProperties\":false,\"properties\":{\"automation_id\":{\"description\":\"自动化标识\",\"type\":\"string\"},\"timeout_ms\":{\"description\":\"可选超时时间\",\"type\":\"integer\"}},\"required\":[\"automation_id\"],\"type\":\"object\"}",
            ToolRiskLevel::Execute,
        ),
        ];
        let res = ToolRegistry { tools };
        assert(res@ =~= default_catalog());
        res
    }

    /// Adds `definition`, replacing a tool of the same name.
    pub fn register(&mut self, definition: ToolDefinition)
        ensures
            final(self)@ == registered(old(self)@, definition@),
    {
        let ghost before = self@;
        let mut i: usize = 0;
        while i < self.tools.len()
            invariant
                i <= self.tools@.len(),
                before == defs_view(self.tools@),
                before == old(self)@,
                find_tool(before, definition@.name, 0) == find_tool(
                    before,
                    definition@.name,
                    i as int,
                ),
            decreases self.tools.len() - i,
        {
            if str_eq(self.tools[i].name.as_str(), definition.name.as_str()) {
                assert(before[i as int] == self.tools@[i as int]@);
                assert(find_tool(before, definition@.name, i as int) == Some(i as int));
                self.tools.set(i, definition);
                assert(defs_view(self.tools@) =~= before.update(i as int, definition@));
                return ;
            }
            i += 1;
        }
        self.tools.push(definition);
        assert(defs_view(self.tools@) =~= before.push(definition@));
    }

    /// The tool named `name`.
    pub fn get(&self, name: &str) -> (res: Result<&ToolDefinition, String>)
        ensures
            match find_tool(self@, name@, 0) {
                Some(i) => res matches Ok(d) && d@ == self@[i],
                None => res matches Err(msg) && msg@ == unknown_tool_message(name@),
            },
    {
        let mut i: usize = 0;
        while i < self.tools.len()
            invariant
                i <= self.tools@.len(),
                find_tool(self@, name@, 0) == find_tool(self@, name@, i as int),
            decreases self.tools.len() - i,
        {
            if str_eq(self.tools[i].name.as_str(), name) {
                return Ok(&self.tools[i]);
            }
            i += 1;
        }
        Err(concat2("未注册的工具：", name))
    }

    /// The tools shown to the model outside any context: every visible tool but those that
    /// need the network switch's GitHub token when it is absent.
    pub fn model_tools(&self, github_token_present: bool) -> (res: Vec<ToolDefinition>)
        ensures
            defs_view(res@) == exposed_tools(self@, Seq::empty(), false, true, true, github_token_present),
    {
        proof {
            reveal_strlit("");
            assert(ascii_lower(""@) =~= Seq::<char>::empty());
        }
        self.model_tools_for_context("", false, true, true, github_token_present)
    }

    /// The tools shown to the model: the visible ones that the context and the switches
    /// admit, in registration order. GitHub access needs the network switch and a token.
    pub fn model_tools_for_context(
        &self,
        context_text: &str,
        enable_adaptive_tool_exposure: bool,
        allow_network: bool,
        allow_plugin_tool: bool,
        github_token_present: bool,
    ) -> (res: Vec<ToolDefinition>)
        ensures
            defs_view(res@) == exposed_tools(
                self@,
                ascii_lower(context_text@),
                enable_adaptive_tool_exposure,
                allow_network,
                allow_plugin_tool,
                allow_network && github_token_present,
            ),
    {
        let normalized = to_ascii_lowercase(context_text);
        let github_enabled = allow_network && github_token_present;
        let mut res: Vec<ToolDefinition> = Vec::new();
        let mut i: usize = 0;
        while i < self.tools.len()
            invariant
                i <= self.tools@.len(),
                normalized@ == ascii_lower(context_text@),
                github_enabled == (allow_network && github_token_present),
                defs_view(res@) == exposed_tools(
                    self@.take(i as int),
                    normalized@,
                    enable_adaptive_tool_exposure,
                    allow_network,
                    allow_plugin_tool,
                    github_enabled,
                ),
            decreases self.tools.len() - i,
        {
            let tool = &self.tools[i];
            let shown = tool.visible_to_model && self::exposed_now(
                tool.name.as_str(),
                normalized.as_str(),
                enable_adaptive_tool_exposure,
                allow_network,
                allow_plugin_tool,
                github_enabled,
            );
            let ghost before = res@;
            if shown {
                res.push(tool.clone());
            }
            proof {
                assert(self@.take(i + 1).drop_last() =~= self@.take(i as int));
                assert(self@.take(i + 1).last() == tool@);
                if shown {
                    assert(defs_view(res@) =~= defs_view(before).push(tool@));
                } else {
                    assert(res@ == before);
                }
            }
            i += 1;
        }
        assert(self@.take(self.tools@.len() as int) =~= self@);
        res
    }
}

/// Whether the tool `name` is exposed (see `tool_exposed`).
fn exposed_now(
    name: &str,
    ctx: &str,
    adaptive: bool,
    allow_network: bool,
    allow_plugin_tool: bool,
    github_enabled: bool,
) -> (res: bool)
    ensures
        res == tool_exposed(name@, ctx@, adaptive, allow_network, allow_plugin_tool, github_enabled),
{
    if !adaptive {
        if str_eq(name, "github_get") {
            github_enabled
        } else if is_network_tool(name) {
            allow_network
        } else {
            true
        }
    } else if str_eq(name, "fetch_url") || str_eq(name, "web_search") || str_eq(name, "web_run") {
        allow_network
    } else if str_eq(name, "github_get") {
        let kws: [&str; 3] = ["github", "pr", "issue"];
        let r = github_enabled && contains_any_keyword(ctx, &kws);
        assert(kws@.map_values(|k: &str| k@) =~= seq!["github"@, "pr"@, "issue"@]);
        r
    } else if str_eq(name, "automation_create") || str_eq(name, "automation_run_once") {
        let kws: [&str; 5] = ["automation", "cron", "heartbeat", "自动化", "定时"];
        let r = contains_any_keyword(ctx, &kws);
        assert(kws@.map_values(|k: &str| k@) =~= seq![
            "automation"@,
            "cron"@,
            "heartbeat"@,
            "自动化"@,
            "定时"@,
        ]);
        r
    } else if str_eq(name, "agent_open") || str_eq(name, "agent_eval") || str_eq(name, "agent_close") {
        let kws: [&str; 4] = ["agent", "subagent", "子代理", "子 agent"];
        let r = allow_plugin_tool && contains_any_keyword(ctx, &kws);
        assert(kws@.map_values(|k: &str| k@) =~= seq!["agent"@, "subagent"@, "子代理"@, "子 agent"@]);
        r
    } else if str_eq(name, "rlm_open") || str_eq(name, "rlm_eval") || str_eq(name, "rlm_configure")
        || str_eq(name, "rlm_close") {
        let kws: [&str; 2] = ["rlm", "推理机"];
        let r = contains_any_keyword(ctx, &kws);
        assert(kws@.map_values(|k: &str| k@) =~= seq!["rlm"@, "推理机"@]);
        r
    } else {
        true
    }
}

} // verus!
