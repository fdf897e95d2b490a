//! Properties of the library as a whole, proved over the specifications that its functions'
//! contracts are stated in.

use vstd::prelude::*;

use crate::approval::{approval_outcome, blocked_reason, ApprovalCapabilities};
use crate::context::{est, kept_count, suffix_tokens, tokens_sum};
use crate::domain::{approval_mode_name, session_status_name, ApprovalMode, MessageView};
use crate::mcp::{state_index, McpClientState};
use crate::records::{AgentInstance, ToolFailureType, ToolRiskLevel};
use crate::registry::{exposed_tools, is_network_name, tool_exposed, ToolDefView};
use crate::subagent::open_level;
use crate::turn::{
    receipt_applied, reply_applied, round_step, tool_step, ModelResponse, TurnAction, TurnError,
    TurnLimits, TurnView,
};
use crate::executor::{
    effective_text, externalized_note, failure_kind, is_failure_receipt, projection_of,
    projection_type_for, record_projection, ToolExecutionReceipt,
};
use crate::records::Session;
use crate::snapshot::{
    lemma_names_read_back, lemma_plain_value, lemma_signed_decimal_reads, lemma_timestamp_plain,
    bool_text, read_value, lemma_plain_readable, plain_value, session_from_text, session_texts_readable,
    snapshot_keys, snapshot_reads_back, value_readable,
};
use crate::util::utc_timestamp;
use crate::text::{contains_seq, lemma_first_occurrence, signed_decimal};
use crate::web::{lemma_item_field_at, rss_item, rss_items};
use crate::domain::AssistantToolCall;

verus! {

/// The most recent messages kept by compaction fit the budget together with the prompt,
/// unless only the newest one is kept; and one more would not have fit.
pub proof fn law_kept_messages_fit(h: Seq<MessageView>, budget: int, base: int)
    requires
        h.len() > 0,
    ensures
        ({
            let k = kept_count(h, budget, base, 0);
            &&& 1 <= k <= h.len()
            &&& k == 1 || base + suffix_tokens(h, k as int) <= budget
            &&& k < h.len() ==> base + suffix_tokens(h, k as int) + est(
                h[h.len() - 1 - k].content,
            ) > budget
        }),
{
    lemma_kept_fit(h, budget, base, 0);
}

proof fn lemma_kept_fit(h: Seq<MessageView>, budget: int, base: int, c: nat)
    requires
        c <= h.len(),
        h.len() > 0,
        c <= 1 || base + suffix_tokens(h, c as int) <= budget,
    ensures
        ({
            let k = kept_count(h, budget, base, c);
            &&& c <= k <= h.len()
            &&& k >= 1
            &&& k == 1 || base + suffix_tokens(h, k as int) <= budget
            &&& k < h.len() ==> base + suffix_tokens(h, k as int) + est(
                h[h.len() - 1 - k].content,
            ) > budget
        }),
    decreases h.len() - c,
{
    if c < h.len() {
        let next = base + suffix_tokens(h, c as int) + est(h[h.len() - 1 - c].content);
        if !(next > budget && c > 0) {
            lemma_suffix_add(h, c as int);
            lemma_kept_fit(h, budget, base, c + 1);
        }
    }
}

proof fn lemma_suffix_add(h: Seq<MessageView>, c: int)
    requires
        0 <= c < h.len(),
    ensures
        suffix_tokens(h, c + 1) == suffix_tokens(h, c) + est(h[h.len() - 1 - c].content),
{
    let a = h.subrange(h.len() - c - 1, h.len() - c);
    let b = h.subrange(h.len() - c, h.len() as int);
    assert(h.subrange(h.len() - (c + 1), h.len() as int) =~= a + b);
    assert(a =~= seq![h[h.len() - 1 - c]]);
    lemma_sum_concat(a, b);
    assert(seq![h[h.len() - 1 - c]].drop_first() =~= Seq::<MessageView>::empty());
    reveal_with_fuel(tokens_sum, 2);
}

proof fn lemma_sum_concat(a: Seq<MessageView>, b: Seq<MessageView>)
    ensures
        tokens_sum(a + b) == tokens_sum(a) + tokens_sum(b),
    decreases a.len(),
{
    if a.len() == 0 {
        assert(a + b =~= b);
    } else {
        lemma_sum_concat(a.drop_first(), b);
        assert((a + b).drop_first() =~= a.drop_first() + b);
    }
}

/// A switched-off capability refuses every tool of its kind, whatever the approval mode.
pub proof fn law_switched_off_capability_refuses(
    mode: ApprovalMode,
    caps: ApprovalCapabilities,
    risk: ToolRiskLevel,
    name: Seq<char>,
)
    requires
        (risk == ToolRiskLevel::Network && !caps.allow_network) || (risk == ToolRiskLevel::Execute
            && !caps.allow_shell) || (risk == ToolRiskLevel::Write && !caps.allow_file_write) || (
        risk == ToolRiskLevel::Agent && !caps.allow_plugin_tool),
    ensures
        approval_outcome(mode, caps, risk, name) matches Some((ok, _)) && !ok,
{
}

/// Read-only tools are never blocked by the switches: they run under full access and safe
/// auto-approval, and the user is asked otherwise.
pub proof fn law_read_only_tools(mode: ApprovalMode, caps: ApprovalCapabilities, name: Seq<char>)
    ensures
        blocked_reason(caps, ToolRiskLevel::ReadOnly, name) is None,
        mode != ApprovalMode::AskUser ==> (approval_outcome(
            mode,
            caps,
            ToolRiskLevel::ReadOnly,
            name,
        ) matches Some((ok, _)) && ok),
        mode == ApprovalMode::AskUser ==> approval_outcome(
            mode,
            caps,
            ToolRiskLevel::ReadOnly,
            name,
        ) is None,
{
}

/// Asking the user never approves a tool on its own, and safe auto-approval approves only
/// read-only tools.
pub proof fn law_no_silent_approval(
    mode: ApprovalMode,
    caps: ApprovalCapabilities,
    risk: ToolRiskLevel,
    name: Seq<char>,
)
    ensures
        mode == ApprovalMode::AskUser ==> !(approval_outcome(mode, caps, risk, name) matches Some(
            (ok, _),
        ) && ok),
        mode == ApprovalMode::AutoApproveSafe && risk != ToolRiskLevel::ReadOnly ==> (approval_outcome(
            mode,
            caps,
            risk,
            name,
        ) matches Some((ok, _)) && !ok),
{
}

/// With the network switched off no network tool is shown to the model, and GitHub access
/// needs its switch on.
pub proof fn law_network_tools_hidden(
    name: Seq<char>,
    ctx: Seq<char>,
    adaptive: bool,
    allow_plugin_tool: bool,
    github_enabled: bool,
)
    requires
        is_network_name(name),
    ensures
        name != "github_get"@ ==> !tool_exposed(name, ctx, adaptive, false, allow_plugin_tool, github_enabled),
        !tool_exposed("github_get"@, ctx, adaptive, false, allow_plugin_tool, false),
{
}

/// The bounds a turn keeps: rounds within the limit, tool calls within the limit, and the
/// next call within the pending ones.
pub open spec fn turn_bounds(limits: TurnLimits, v: TurnView) -> bool {
    &&& v.rounds_started <= limits.max_rounds
    &&& v.total_tool_calls <= limits.tool_call_limit
    &&& v.next_call <= v.pending_calls.len()
}

/// A new round keeps the bounds of a turn: the model is called at most `max_rounds` times.
pub proof fn law_round_keeps_bounds(
    limits: TurnLimits,
    model: Seq<char>,
    sp: Seq<char>,
    pre: TurnView,
    post: TurnView,
    act: TurnAction,
)
    requires
        turn_bounds(limits, pre),
        round_step(limits, model, sp, pre, post, act),
    ensures
        turn_bounds(limits, post),
        act is CallModel ==> post.rounds_started == pre.rounds_started + 1,
{
}

/// Running the next tool call keeps the bounds of a turn: at most `tool_call_limit` calls
/// run in a turn.
pub proof fn law_tool_step_keeps_bounds(
    limits: TurnLimits,
    model: Seq<char>,
    sp: Seq<char>,
    pre: TurnView,
    post: TurnView,
    act: TurnAction,
)
    requires
        turn_bounds(limits, pre),
        tool_step(limits, model, sp, pre, post, act),
    ensures
        turn_bounds(limits, post),
        act is RunTool ==> post.total_tool_calls == pre.total_tool_calls + 1,
{
}

/// A model answer with tool calls and a tool receipt keep the bounds of a turn.
pub proof fn law_answers_keep_bounds(
    limits: TurnLimits,
    pre: TurnView,
    r: ModelResponse,
    t: ToolExecutionReceipt,
)
    requires
        turn_bounds(limits, pre),
    ensures
        turn_bounds(limits, reply_applied(pre, r)),
        turn_bounds(limits, receipt_applied(pre, t)),
        reply_applied(pre, r).history.len() == pre.history.len() + 1,
        receipt_applied(pre, t).history.len() == pre.history.len() + 1,
{
}

/// A sub-agent is opened only while fewer than five exist, never deeper than level two, and
/// at level one without a parent.
pub proof fn law_open_bounds(agents: Seq<AgentInstance>, parent: Option<Seq<char>>)
    ensures
        open_level(agents, parent) matches Ok(l) ==> agents.len() < 5 && l <= 2,
        parent is None && agents.len() < 5 ==> open_level(agents, parent) == Ok::<int, Seq<char>>(1),
        agents.len() >= 5 ==> open_level(agents, parent) is Err,
{
}

/// The servers of a list of states are distinct.
pub open spec fn servers_unique(states: Seq<McpClientState>) -> bool {
    forall|i: int, j: int|
        0 <= i < states.len() && 0 <= j < states.len() && i != j ==> states[i].server_id@
            != states[j].server_id@
}

proof fn lemma_state_index(states: Seq<McpClientState>, id: Seq<char>, i: int)
    requires
        0 <= i,
    ensures
        state_index(states, id, i) matches Some(k) ==> i <= k < states.len()
            && states[k].server_id@ == id,
        state_index(states, id, i) is None ==> forall|j: int|
            i <= j < states.len() ==> states[j].server_id@ != id,
    decreases states.len() - i,
{
    if i < states.len() && states[i].server_id@ != id {
        lemma_state_index(states, id, i + 1);
    }
}

/// Recording a server's state keeps one state per server.
pub proof fn law_upsert_keeps_servers_unique(states: Seq<McpClientState>, s: McpClientState)
    requires
        servers_unique(states),
    ensures
        servers_unique(
            match state_index(states, s.server_id@, 0) {
                Some(i) => states.update(i, s),
                None => states.push(s),
            },
        ),
{
    lemma_state_index(states, s.server_id@, 0);
}

/// A snapshot reads back as the session it was written for: when a text gives back every
/// entry of the snapshot of `s` as `read_value` reads it (as `render_session_ini` writes it
/// for a session with readable texts), the session read from it has every field of `s`, in
/// the directory it is read from, and of each text what `read_value` reads: the whole text
/// when it is plain (`lemma_plain_readable`), its first line cut at a comment otherwise.
pub proof fn law_snapshot_reads_back(
    s: Session,
    text: Seq<char>,
    session_dir: Seq<char>,
    dir_name: Option<Seq<char>>,
    now: Seq<char>,
    r: Session,
)
    requires
        snapshot_reads_back(text, s),
        session_from_text(text, session_dir, dir_name, now, r),
    ensures
        r.id@ == read_value(s.id@),
        r.directory_id@ == read_value(s.directory_id@),
        r.name@ == read_value(s.name@),
        r.project_name@ == read_value(s.project_name@),
        r.project_path@ == read_value(s.project_path@),
        r.working_directory@ == read_value(s.working_directory@),
        r.model@ == read_value(s.model@),
        r.approval_mode == s.approval_mode,
        r.status == s.status,
        r.stream_output == s.stream_output,
        r.round == s.round,
        r.is_finished == s.is_finished,
        r.session_dir@ == session_dir,
        r.snapshot_version == s.snapshot_version,
        r.last_round_no == s.last_round_no,
        r.content_hash@ == read_value(s.content_hash@),
        r.system_prompt@ == read_value(s.system_prompt@),
        r.created_at@ == read_value(s.created_at@),
        r.updated_at@ == read_value(s.updated_at@),
{
    lemma_names_read_back(s.stream_output, s.approval_mode, s.status);
    lemma_names_read_back(s.is_finished, s.approval_mode, s.status);
    lemma_signed_decimal_reads(s.round);
    lemma_signed_decimal_reads(s.snapshot_version);
    lemma_signed_decimal_reads(s.last_round_no);
    lemma_plain_readable(bool_text(s.stream_output), snapshot_keys());
    lemma_plain_readable(bool_text(s.is_finished), snapshot_keys());
    lemma_plain_readable(approval_mode_name(s.approval_mode), snapshot_keys());
    lemma_plain_readable(session_status_name(s.status), snapshot_keys());
    lemma_plain_readable(signed_decimal(s.round as int), snapshot_keys());
    lemma_plain_readable(signed_decimal(s.snapshot_version as int), snapshot_keys());
    lemma_plain_readable(signed_decimal(s.last_round_no as int), snapshot_keys());
}

/// A successful tool's output that fits the inline limit is handed back whole, and the
/// record of its result keeps it whole and inline; a longer one is handed back as its first
/// `limit` characters and the note, and its record is not inline.
pub proof fn law_inline_output_kept_whole(r: ToolExecutionReceipt, limit: int)
    requires
        limit >= 0,
        r.success,
        r.projection_content@ == projection_of(r.output@, limit),
    ensures
        r.output@.len() <= limit ==> {
            &&& r.projection_content@ == r.output@
            &&& projection_type_for(effective_text(r).len() as int, limit) is InlineFull
            &&& record_projection(r, limit) == r.output@
        },
        r.output@.len() > limit ==> {
            &&& r.projection_content@ == r.output@.take(limit) + externalized_note()
            &&& !(projection_type_for(effective_text(r).len() as int, limit) is InlineFull)
        },
{
}

/// A session as `Session::new` makes it from readable texts has readable texts: its times
/// are RFC 3339 texts and its content hash is empty. So its snapshot reads back as the
/// session (`render_session_ini`, then `law_snapshot_reads_back`).
pub proof fn law_new_session_texts_readable(s: Session)
    requires
        value_readable(s.id@, snapshot_keys()),
        value_readable(s.directory_id@, snapshot_keys()),
        value_readable(s.name@, snapshot_keys()),
        value_readable(s.project_name@, snapshot_keys()),
        value_readable(s.project_path@, snapshot_keys()),
        value_readable(s.working_directory@, snapshot_keys()),
        value_readable(s.model@, snapshot_keys()),
        value_readable(s.system_prompt@, snapshot_keys()),
        s.content_hash@.len() == 0,
        utc_timestamp(s.created_at@),
        s.updated_at == s.created_at,
    ensures
        session_texts_readable(s),
{
    lemma_timestamp_plain(s.created_at@);
    lemma_plain_value(s.content_hash@);
    lemma_plain_readable(s.created_at@, snapshot_keys());
    lemma_plain_readable(s.content_hash@, snapshot_keys());
}

/// Each kind of risky tool is refused by its own switch and by no other. Under full access a
/// write tool runs exactly when file writing is on, whatever the shell, network and plug-in
/// switches say; likewise shell tools with the shell switch, network tools with the network
/// switch and agent tools with the plug-in switch, and read-only tools always run. In any
/// mode, two settings that agree on a tool's own switch decide it alike.
pub proof fn law_each_risk_has_its_own_switch(
    mode: ApprovalMode,
    caps: ApprovalCapabilities,
    other: ApprovalCapabilities,
    name: Seq<char>,
)
    ensures
        (approval_outcome(ApprovalMode::FullAccess, caps, ToolRiskLevel::Write, name) matches Some(
            (true, _),
        )) <==> caps.allow_file_write,
        (approval_outcome(ApprovalMode::FullAccess, caps, ToolRiskLevel::Execute, name) matches Some(
            (true, _),
        )) <==> caps.allow_shell,
        (approval_outcome(ApprovalMode::FullAccess, caps, ToolRiskLevel::Network, name) matches Some(
            (true, _),
        )) <==> caps.allow_network,
        (approval_outcome(ApprovalMode::FullAccess, caps, ToolRiskLevel::Agent, name) matches Some(
            (true, _),
        )) <==> caps.allow_plugin_tool,
        approval_outcome(ApprovalMode::FullAccess, caps, ToolRiskLevel::ReadOnly, name) matches Some(
            (true, _),
        ),
        other.allow_file_write == caps.allow_file_write ==> approval_outcome(
            mode,
            caps,
            ToolRiskLevel::Write,
            name,
        ) == approval_outcome(mode, other, ToolRiskLevel::Write, name),
        other.allow_shell == caps.allow_shell ==> approval_outcome(
            mode,
            caps,
            ToolRiskLevel::Execute,
            name,
        ) == approval_outcome(mode, other, ToolRiskLevel::Execute, name),
        other.allow_network == caps.allow_network ==> approval_outcome(
            mode,
            caps,
            ToolRiskLevel::Network,
            name,
        ) == approval_outcome(mode, other, ToolRiskLevel::Network, name),
        other.allow_plugin_tool == caps.allow_plugin_tool ==> approval_outcome(
            mode,
            caps,
            ToolRiskLevel::Agent,
            name,
        ) == approval_outcome(mode, other, ToolRiskLevel::Agent, name),
        approval_outcome(mode, caps, ToolRiskLevel::ReadOnly, name) == approval_outcome(
            mode,
            other,
            ToolRiskLevel::ReadOnly,
            name,
        ),
{
}

/// The names of the sub-agent tools.
pub open spec fn is_agent_tool_name(n: Seq<char>) -> bool {
    n == "agent_open"@ || n == "agent_eval"@ || n == "agent_close"@
}

proof fn lemma_exposed_tools_shown(
    defs: Seq<ToolDefView>,
    ctx: Seq<char>,
    adaptive: bool,
    allow_network: bool,
    allow_plugin_tool: bool,
    github_enabled: bool,
)
    ensures
        forall|i: int|
            0 <= i < exposed_tools(defs, ctx, adaptive, allow_network, allow_plugin_tool, github_enabled).len()
                ==> tool_exposed(
                #[trigger] exposed_tools(
                    defs,
                    ctx,
                    adaptive,
                    allow_network,
                    allow_plugin_tool,
                    github_enabled,
                )[i].name,
                ctx,
                adaptive,
                allow_network,
                allow_plugin_tool,
                github_enabled,
            ),
    decreases defs.len(),
{
    if defs.len() > 0 {
        lemma_exposed_tools_shown(
            defs.drop_last(),
            ctx,
            adaptive,
            allow_network,
            allow_plugin_tool,
            github_enabled,
        );
    }
}

/// With plug-in tools switched off, adaptive exposure shows the model no sub-agent tool,
/// whatever the context and the other switches: none of `agent_open`, `agent_eval` and
/// `agent_close` is exposed, and none is among the tools chosen from any list.
pub proof fn law_agent_tools_need_plugin_switch(
    defs: Seq<ToolDefView>,
    ctx: Seq<char>,
    allow_network: bool,
    github_enabled: bool,
)
    ensures
        forall|n: Seq<char>|
            is_agent_tool_name(n) ==> !#[trigger] tool_exposed(n, ctx, true, allow_network, false, github_enabled),
        forall|i: int|
            0 <= i < exposed_tools(defs, ctx, true, allow_network, false, github_enabled).len()
                ==> !is_agent_tool_name(
                #[trigger] exposed_tools(defs, ctx, true, allow_network, false, github_enabled)[i].name,
            ),
{
    reveal_strlit("agent_open");
    reveal_strlit("agent_eval");
    reveal_strlit("agent_close");
    reveal_strlit("fetch_url");
    reveal_strlit("web_search");
    reveal_strlit("web_run");
    reveal_strlit("github_get");
    reveal_strlit("automation_create");
    reveal_strlit("automation_run_once");
    assert("agent_open"@[0] != "fetch_url"@[0] && "agent_open"@[0] != "web_search"@[0]
        && "agent_open"@[0] != "github_get"@[0] && "agent_open"@[0] != "automation_create"@[1]);
    assert("agent_open"@.len() != "web_run"@.len());
    assert("agent_eval"@.len() != "web_run"@.len());
    assert("agent_close"@.len() != "web_run"@.len());
    assert("agent_open"@[0] != "automation_create"@[0] || "agent_open"@[1] != "automation_create"@[1]);
    assert("agent_open"@[1] != "automation_run_once"@[1]);
    assert("agent_eval"@[1] != "automation_run_once"@[1]);
    assert("agent_close"@[1] != "automation_run_once"@[1]);
    lemma_exposed_tools_shown(defs, ctx, true, allow_network, false, github_enabled);
}

/// A tool call's receipt is counted by what went wrong: a call that failed on its arguments
/// (`InvalidArgs`) counts only against the argument limit and never against the tool-failure
/// limit; another failure counts only against the tool-failure limit; a success against
/// neither. So a turn whose tool failures were under their limit is not stopped for them by a
/// bad-argument receipt.
pub proof fn law_bad_arguments_are_not_tool_failures(
    limits: TurnLimits,
    model: Seq<char>,
    sp: Seq<char>,
    pre: TurnView,
    r: ToolExecutionReceipt,
    post: TurnView,
    act: TurnAction,
)
    ensures
        r.failure_type == Some(ToolFailureType::InvalidArgs) ==> receipt_applied(pre, r).tool_failures
            == pre.tool_failures,
        !r.success && r.failure_type == Some(ToolFailureType::InvalidArgs) ==> receipt_applied(
            pre,
            r,
        ).invalid_arg_failures == if pre.invalid_arg_failures < usize::MAX {
            (pre.invalid_arg_failures + 1) as usize
        } else {
            pre.invalid_arg_failures
        },
        !r.success && r.failure_type != Some(ToolFailureType::InvalidArgs) ==> receipt_applied(
            pre,
            r,
        ).invalid_arg_failures == pre.invalid_arg_failures && receipt_applied(pre, r).tool_failures
            == if pre.tool_failures < usize::MAX {
            (pre.tool_failures + 1) as usize
        } else {
            pre.tool_failures
        },
        r.success ==> receipt_applied(pre, r).invalid_arg_failures == pre.invalid_arg_failures
            && receipt_applied(pre, r).tool_failures == pre.tool_failures,
        r.failure_type == Some(ToolFailureType::InvalidArgs) && pre.tool_failures
            < limits.tool_failure_limit && tool_step(
            limits,
            model,
            sp,
            receipt_applied(pre, r),
            post,
            act,
        ) ==> act != TurnAction::Fail(TurnError::ToolFailureLimit(limits.tool_failure_limit)),
{
}

/// A tool error that reports bad arguments is classed as such: a message that says
/// `参数非法`, or names `replace_range`, or says `缺少` or `冲突`, is `InvalidArgs`, and any
/// other message is a failing tool (`ExecError`). So the receipt of a call whose tool failed
/// with such a message carries `InvalidArgs`.
pub proof fn law_bad_argument_errors_are_classed(
    msg: Seq<char>,
    r: ToolExecutionReceipt,
    call: AssistantToolCall,
)
    ensures
        contains_seq(msg, "参数非法"@) ==> failure_kind(msg) == ToolFailureType::InvalidArgs,
        contains_seq(msg, "replace_range"@) ==> failure_kind(msg) == ToolFailureType::InvalidArgs,
        contains_seq(msg, "缺少"@) ==> failure_kind(msg) == ToolFailureType::InvalidArgs,
        contains_seq(msg, "冲突"@) ==> failure_kind(msg) == ToolFailureType::InvalidArgs,
        !contains_seq(msg, "参数非法"@) && !contains_seq(msg, "replace_range"@) && !contains_seq(
            msg,
            "缺少"@,
        ) && !contains_seq(msg, "冲突"@) ==> failure_kind(msg) == ToolFailureType::ExecError,
        is_failure_receipt(r, call, msg, failure_kind(msg)) && contains_seq(msg, "参数非法"@)
            ==> r.failure_type == Some(ToolFailureType::InvalidArgs),
{
}

/// Each search hit takes its title, link and snippet from its item's `<title>`, `<link>` and
/// `<description>`: where an item's first such tag holds a text `d` without `&`, `<` or `]`,
/// the hit's field is `d`.
pub proof fn law_search_hits_keep_their_fields(a: Seq<char>, d: Seq<char>, b: Seq<char>)
    requires
        forall|i: int| 0 <= i < d.len() ==> d[i] != '&' && d[i] != '<' && d[i] != ']',
    ensures
        !contains_seq(a, "<title>"@) ==> rss_item(a + "<title>"@ + d + "</title>"@ + b).0 == d,
        !contains_seq(a, "<link>"@) ==> rss_item(a + "<link>"@ + d + "</link>"@ + b).1 == d,
        !contains_seq(a, "<description>"@) ==> rss_item(
            a + "<description>"@ + d + "</description>"@ + b,
        ).2 == d,
{
    reveal_strlit("<");
    reveal_strlit(">");
    reveal_strlit("</");
    reveal_strlit("title");
    reveal_strlit("link");
    reveal_strlit("description");
    reveal_strlit("<title>");
    reveal_strlit("</title>");
    reveal_strlit("<link>");
    reveal_strlit("</link>");
    reveal_strlit("<description>");
    reveal_strlit("</description>");
    assert("<title>"@ =~= "<"@ + "title"@ + ">"@);
    assert("</title>"@ =~= "</"@ + "title"@ + ">"@);
    assert("<link>"@ =~= "<"@ + "link"@ + ">"@);
    assert("</link>"@ =~= "</"@ + "link"@ + ">"@);
    assert("<description>"@ =~= "<"@ + "description"@ + ">"@);
    assert("</description>"@ =~= "</"@ + "description"@ + ">"@);
    if !contains_seq(a, "<title>"@) {
        lemma_item_field_at(a, "title"@, d, b);
    }
    if !contains_seq(a, "<link>"@) {
        lemma_item_field_at(a, "link"@, d, b);
    }
    if !contains_seq(a, "<description>"@) {
        lemma_item_field_at(a, "description"@, d, b);
    }
}

/// A feed gives one hit for each closed `<item>` in order: an `<item>` block before which no
/// other item opens and in which no item closes gives the first hit, and the rest of the feed
/// gives the others.
pub proof fn law_feed_items_in_order(p: Seq<char>, block: Seq<char>, q: Seq<char>)
    requires
        !contains_seq(p, "<item>"@),
        !contains_seq(block, "</item>"@),
    ensures
        rss_items(p + "<item>"@ + block + "</item>"@ + q) == seq![rss_item(block)] + rss_items(q),
{
    reveal_strlit("<item>");
    reveal_strlit("</item>");
    let o = "<item>"@;
    let c = "</item>"@;
    assert forall|m: int| 0 < m < o.len() implies #[trigger] o[m] != o[0] by {}
    assert forall|m: int| 0 < m < c.len() implies #[trigger] c[m] != c[0] by {}
    let s = p + o + block + c + q;
    assert(s =~= p + o + (block + c + q));
    lemma_first_occurrence(p, o, block + c + q);
    let after = s.skip((p.len() + o.len()) as int);
    assert(after =~= block + c + q);
    lemma_first_occurrence(block, c, q);
    assert(after.take(block.len() as int) =~= block);
    assert(after.skip((block.len() + c.len()) as int) =~= q);
}

/// Under adaptive exposure each tool outside the fixed set shows up only when the context
/// asks for it: the sub-agent tools when plug-in tools are on and the context mentions
/// `agent`, `subagent`, `子代理` or `子 agent`; the automation tools when it mentions
/// `automation`, `cron`, `heartbeat`, `自动化` or `定时`; the long-lived process tools when it
/// mentions `rlm` or `推理机`; `github_get` when GitHub access is on and it mentions
/// `github`, `pr` or `issue`; the web tools exactly when the network is on. Without adaptive
/// exposure the sub-agent, automation and process tools are always shown.
pub proof fn law_adaptive_exposure(
    ctx: Seq<char>,
    allow_network: bool,
    allow_plugin_tool: bool,
    github_enabled: bool,
)
    ensures
        tool_exposed("agent_open"@, ctx, true, allow_network, allow_plugin_tool, github_enabled)
            == (allow_plugin_tool && (contains_seq(ctx, "agent"@) || contains_seq(ctx, "subagent"@)
            || contains_seq(ctx, "子代理"@) || contains_seq(ctx, "子 agent"@))),
        tool_exposed("automation_create"@, ctx, true, allow_network, allow_plugin_tool, github_enabled)
            == (contains_seq(ctx, "automation"@) || contains_seq(ctx, "cron"@) || contains_seq(
            ctx,
            "heartbeat"@,
        ) || contains_seq(ctx, "自动化"@) || contains_seq(ctx, "定时"@)),
        tool_exposed("rlm_open"@, ctx, true, allow_network, allow_plugin_tool, github_enabled) == (
        contains_seq(ctx, "rlm"@) || contains_seq(ctx, "推理机"@)),
        tool_exposed("github_get"@, ctx, true, allow_network, allow_plugin_tool, github_enabled) == (
        github_enabled && (contains_seq(ctx, "github"@) || contains_seq(ctx, "pr"@) || contains_seq(
            ctx,
            "issue"@,
        ))),
        tool_exposed("web_search"@, ctx, true, allow_network, allow_plugin_tool, github_enabled)
            == allow_network,
        tool_exposed("read_file"@, ctx, true, allow_network, allow_plugin_tool, github_enabled),
        tool_exposed("agent_open"@, ctx, false, allow_network, allow_plugin_tool, github_enabled),
        tool_exposed("automation_create"@, ctx, false, allow_network, allow_plugin_tool, github_enabled),
        tool_exposed("rlm_open"@, ctx, false, allow_network, allow_plugin_tool, github_enabled),
{
    reveal_strlit("agent_open");
    reveal_strlit("agent_eval");
    reveal_strlit("agent_close");
    reveal_strlit("fetch_url");
    reveal_strlit("web_search");
    reveal_strlit("web_run");
    reveal_strlit("github_get");
    reveal_strlit("automation_create");
    reveal_strlit("automation_run_once");
    reveal_strlit("rlm_open");
    reveal_strlit("rlm_eval");
    reveal_strlit("rlm_configure");
    reveal_strlit("rlm_close");
    reveal_strlit("read_file");
    let ak = seq!["agent"@, "subagent"@, "子代理"@, "子 agent"@];
    let mk = seq!["automation"@, "cron"@, "heartbeat"@, "自动化"@, "定时"@];
    let rk = seq!["rlm"@, "推理机"@];
    let gk = seq!["github"@, "pr"@, "issue"@];
    assert(crate::registry::any_keyword(ctx, ak) == (contains_seq(ctx, ak[0]) || contains_seq(ctx, ak[1])
        || contains_seq(ctx, ak[2]) || contains_seq(ctx, ak[3])));
    assert(crate::registry::any_keyword(ctx, mk) == (contains_seq(ctx, mk[0]) || contains_seq(ctx, mk[1])
        || contains_seq(ctx, mk[2]) || contains_seq(ctx, mk[3]) || contains_seq(ctx, mk[4])));
    assert(crate::registry::any_keyword(ctx, rk) == (contains_seq(ctx, rk[0]) || contains_seq(ctx, rk[1])));
    assert(crate::registry::any_keyword(ctx, gk) == (contains_seq(ctx, gk[0]) || contains_seq(ctx, gk[1])
        || contains_seq(ctx, gk[2])));
    assert("agent_open"@[0] != "fetch_url"@[0] && "agent_open"@[0] != "web_search"@[0]
        && "agent_open"@[0] != "github_get"@[0] && "agent_open"@.len() != "web_run"@.len());
    assert("agent_open"@[1] != "automation_create"@[1] && "agent_open"@[1] != "automation_run_once"@[1]);
    assert("automation_create"@[0] != "fetch_url"@[0] && "automation_create"@[0] != "web_search"@[0]
        && "automation_create"@[0] != "github_get"@[0] && "automation_create"@.len() != "web_run"@.len());
    assert("rlm_open"@[0] != "fetch_url"@[0] && "rlm_open"@[0] != "web_search"@[0]
        && "rlm_open"@[0] != "github_get"@[0] && "rlm_open"@[0] != "automation_create"@[0]
        && "rlm_open"@[0] != "agent_open"@[0] && "rlm_open"@.len() != "web_run"@.len());
    assert("rlm_open"@[0] != "automation_run_once"@[0]);
    assert("rlm_open"@.len() != "agent_eval"@.len() || "rlm_open"@[0] != "agent_eval"@[0]);
    assert("rlm_open"@[0] != "agent_close"@[0]);
    assert("github_get"@[0] != "fetch_url"@[0] && "github_get"@[0] != "web_search"@[0]
        && "github_get"@.len() != "web_run"@.len());
    assert("web_search"@[0] != "fetch_url"@[0]);
    assert("read_file"@[0] != "fetch_url"@[0] && "read_file"@[0] != "web_search"@[0]
        && "read_file"@[0] != "github_get"@[0] && "read_file"@[0] != "automation_create"@[0]
        && "read_file"@[0] != "automation_run_once"@[0] && "read_file"@[0] != "agent_open"@[0]
        && "read_file"@[0] != "agent_eval"@[0] && "read_file"@[0] != "agent_close"@[0]
        && "read_file"@[0] != "web_run"@[0]);
    assert("read_file"@.len() != "rlm_open"@.len() || "read_file"@[1] != "rlm_open"@[1]);
    assert("read_file"@[1] != "rlm_eval"@[1] && "read_file"@[1] != "rlm_configure"@[1]
        && "read_file"@[1] != "rlm_close"@[1]);
    assert("automation_create"@[0] != "github_get"@[0]);
}

/// After a tool call, the turn runs the next pending call unless the call limit is reached;
/// with no call pending it stops at the first limit reached, bad arguments before tool
/// failures, and otherwise goes on to the next round.
pub proof fn law_turn_stops_at_its_limits(
    limits: TurnLimits,
    model: Seq<char>,
    sp: Seq<char>,
    pre: TurnView,
    post: TurnView,
    act: TurnAction,
)
    requires
        tool_step(limits, model, sp, pre, post, act),
    ensures
        pre.next_call < pre.pending_calls.len() && pre.total_tool_calls < limits.tool_call_limit
            ==> act == TurnAction::RunTool(pre.pending_calls[pre.next_call as int])
            && post.total_tool_calls == pre.total_tool_calls + 1,
        pre.next_call < pre.pending_calls.len() && pre.total_tool_calls >= limits.tool_call_limit
            ==> act == TurnAction::Fail(TurnError::ToolCallLimit(limits.tool_call_limit)),
        pre.next_call >= pre.pending_calls.len() && pre.invalid_arg_failures
            >= limits.invalid_arg_retry_limit ==> act == TurnAction::Fail(
            TurnError::InvalidArgLimit(limits.invalid_arg_retry_limit),
        ),
        pre.next_call >= pre.pending_calls.len() && pre.invalid_arg_failures
            < limits.invalid_arg_retry_limit && pre.tool_failures >= limits.tool_failure_limit
            ==> act == TurnAction::Fail(TurnError::ToolFailureLimit(limits.tool_failure_limit)),
        pre.next_call >= pre.pending_calls.len() && pre.invalid_arg_failures
            < limits.invalid_arg_retry_limit && pre.tool_failures < limits.tool_failure_limit
            ==> round_step(limits, model, sp, pre, post, act),
{
}

} // verus!
