//! MCP servers: which are enabled, the endpoints of a server, and the connection states kept
//! per server.

use vstd::prelude::*;

use crate::text::{concat2, concat3, extend_str, from_chars, owned, str_eq, sub_vec, to_chars};

verus! {

/// A configured MCP server.
#[derive(Debug)]
pub struct McpServerConfig {
    /// Identifier.
    pub id: String,
    /// Name.
    pub name: String,
    /// Base URL.
    pub base_url: String,
    /// Whether it is used.
    pub enabled: bool,
    /// Capabilities endpoint, when not the default.
    pub capabilities_endpoint: Option<String>,
    /// Tools endpoint, when not the default.
    pub tools_endpoint: Option<String>,
    /// Environment variable holding its API key.
    pub api_key_env: Option<String>,
}

/// The connection state of a server.
#[derive(Debug)]
pub struct McpClientState {
    /// Server identifier.
    pub server_id: String,
    /// `connected`.
    pub status: String,
    /// Capabilities as JSON text.
    pub capabilities_json: String,
    /// Last error.
    pub last_error: String,
    /// Last update time.
    pub updated_at: String,
}

/// A server without an `enabled` setting is enabled.
pub fn default_enabled() -> (res: bool)
    ensures
        res,
{
    true
}

/// `s` without its trailing slashes (std's `str::trim_end_matches('/')`).
pub open spec fn trim_slashes(s: Seq<char>) -> Seq<char>
    decreases s.len(),
{
    if s.len() > 0 && s.last() == '/' {
        trim_slashes(s.drop_last())
    } else {
        s
    }
}

/// `s` without its trailing slashes.
pub fn trim_end_slashes(s: &str) -> (res: String)
    ensures
        res@ == trim_slashes(s@),
{
    let v = to_chars(s);
    let mut n: usize = v.len();
    assert(v@.take(n as int) =~= v@);
    while n > 0 && v[n - 1] == '/'
        invariant
            n <= v@.len(),
            trim_slashes(v@) == trim_slashes(v@.take(n as int)),
        decreases n,
    {
        assert(v@.take(n as int).drop_last() =~= v@.take(n - 1));
        n -= 1;
    }
    let out = sub_vec(&v, 0, n);
    assert(out@ =~= v@.take(n as int));
    from_chars(&out)
}

/// The enabled servers, in order.
pub open spec fn enabled_of(servers: Seq<McpServerConfig>) -> Seq<McpServerConfig>
    decreases servers.len(),
{
    if servers.len() == 0 {
        Seq::empty()
    } else if servers.last().enabled {
        enabled_of(servers.drop_last()).push(servers.last())
    } else {
        enabled_of(servers.drop_last())
    }
}

/// A copy of a server's configuration.
pub fn clone_server(s: &McpServerConfig) -> (res: McpServerConfig)
    ensures
        res == *s,
{
    McpServerConfig {
        id: s.id.clone(),
        name: s.name.clone(),
        base_url: s.base_url.clone(),
        enabled: s.enabled,
        capabilities_endpoint: clone_opt(&s.capabilities_endpoint),
        tools_endpoint: clone_opt(&s.tools_endpoint),
        api_key_env: clone_opt(&s.api_key_env),
    }
}

fn clone_opt(o: &Option<String>) -> (res: Option<String>)
    ensures
        res == *o,
{
    match o {
        Some(v) => Some(v.clone()),
        None => None,
    }
}

/// The enabled servers, in order.
pub fn enabled_servers(servers: &Vec<McpServerConfig>) -> (res: Vec<McpServerConfig>)
    ensures
        res@ == enabled_of(servers@),
{
    let mut kept: Vec<McpServerConfig> = Vec::new();
    let mut i: usize = 0;
    while i < servers.len()
        invariant
            i <= servers@.len(),
            kept@ == enabled_of(servers@.take(i as int)),
        decreases servers.len() - i,
    {
        proof {
            assert(servers@.take(i + 1).drop_last() =~= servers@.take(i as int));
            assert(servers@.take(i + 1).last() == servers@[i as int]);
        }
        if servers[i].enabled {
            kept.push(clone_server(&servers[i]));
        }
        i += 1;
    }
    assert(servers@.take(servers@.len() as int) =~= servers@);
    kept
}

/// The first server with the identifier `id`.
pub open spec fn server_index(servers: Seq<McpServerConfig>, id: Seq<char>, i: int) -> Option<int>
    decreases servers.len() - i,
{
    if i < 0 || i >= servers.len() {
        None
    } else if servers[i].id@ == id {
        Some(i)
    } else {
        server_index(servers, id, i + 1)
    }
}

/// The position of the server `server_id`, or the error for an unknown one.
pub fn find_server(servers: &Vec<McpServerConfig>, server_id: &str) -> (res: Result<usize, String>)
    ensures
        res matches Ok(i) ==> server_index(servers@, server_id@, 0) == Some(i as int),
        res matches Err(m) ==> (server_index(servers@, server_id@, 0) is None && m@
            == "未找到 MCP 服务端："@ + server_id@),
        server_index(servers@, server_id@, 0) is None ==> res is Err,
{
    let mut i: usize = 0;
    while i < servers.len()
        invariant
            i <= servers@.len(),
            server_index(servers@, server_id@, 0) == server_index(servers@, server_id@, i as int),
        decreases servers.len() - i,
    {
        if str_eq(servers[i].id.as_str(), server_id) {
            return Ok(i);
        }
        i += 1;
    }
    Err(concat2("未找到 MCP 服务端：", server_id))
}

/// The capabilities endpoint of a server: the configured one, else its base URL without
/// trailing slashes followed by `/capabilities`.
pub open spec fn capabilities_url_of(s: McpServerConfig) -> Seq<char> {
    match s.capabilities_endpoint {
        Some(e) => e@,
        None => trim_slashes(s.base_url@) + "/capabilities"@,
    }
}

/// The capabilities endpoint of a server.
pub fn capabilities_url(server: &McpServerConfig) -> (res: String)
    ensures
        res@ == capabilities_url_of(*server),
{
    match &server.capabilities_endpoint {
        Some(e) => e.clone(),
        None => concat2(trim_end_slashes(server.base_url.as_str()).as_str(), "/capabilities"),
    }
}

/// The endpoint of a server's tool: the configured tools endpoint (else the base URL without
/// trailing slashes followed by `/tools`), without trailing slashes, then `/` and the tool.
pub open spec fn tool_url_of(s: McpServerConfig, tool: Seq<char>) -> Seq<char> {
    let base = match s.tools_endpoint {
        Some(e) => e@,
        None => trim_slashes(s.base_url@) + "/tools"@,
    };
    trim_slashes(base) + "/"@ + tool
}

/// The endpoint of a server's tool.
pub fn tool_url(server: &McpServerConfig, tool_name: &str) -> (res: String)
    ensures
        res@ == tool_url_of(*server, tool_name@),
{
    let base = match &server.tools_endpoint {
        Some(e) => e.clone(),
        None => concat2(trim_end_slashes(server.base_url.as_str()).as_str(), "/tools"),
    };
    concat3(trim_end_slashes(base.as_str()).as_str(), "/", tool_name)
}

/// The error for a missing API key variable.
pub fn missing_key_message(env_name: &str) -> (res: String)
    ensures
        res@ == "缺少 MCP 服务端所需环境变量："@ + env_name@,
{
    concat2("缺少 MCP 服务端所需环境变量：", env_name)
}

/// The state of a server just connected, with its capabilities, at time `now`.
pub fn connected_state(server_id: &str, capabilities_json: String, now: String) -> (res:
    McpClientState)
    ensures
        res.server_id@ == server_id@,
        res.status@ == "connected"@,
        res.capabilities_json == capabilities_json,
        res.last_error@.len() == 0,
        res.updated_at == now,
{
    proof {
        reveal_strlit("");
    }
    McpClientState {
        server_id: owned(server_id),
        status: owned("connected"),
        capabilities_json,
        last_error: owned(""),
        updated_at: now,
    }
}

/// The first state of the server `id`.
pub open spec fn state_index(states: Seq<McpClientState>, id: Seq<char>, i: int) -> Option<int>
    decreases states.len() - i,
{
    if i < 0 || i >= states.len() {
        None
    } else if states[i].server_id@ == id {
        Some(i)
    } else {
        state_index(states, id, i + 1)
    }
}

/// Records a server's state: it replaces that server's first state, or is added at the end.
pub fn upsert_state(states: &mut Vec<McpClientState>, state: McpClientState)
    ensures
        match state_index(old(states)@, state.server_id@, 0) {
            Some(i) => final(states)@ == old(states)@.update(i, state),
            None => final(states)@ == old(states)@.push(state),
        },
{
    let mut i: usize = 0;
    while i < states.len()
        invariant
            i <= states@.len(),
            states@ == old(states)@,
            state_index(old(states)@, state.server_id@, 0) == state_index(
                old(states)@,
                state.server_id@,
                i as int,
            ),
        decreases states.len() - i,
    {
        if str_eq(states[i].server_id.as_str(), state.server_id.as_str()) {
            states.set(i, state);
            return ;
        }
        i += 1;
    }
    states.push(state);
}

} // verus!
