//! Running a tool call: the checks before the tool runs, the receipt after it, and the
//! records that are kept of the result.

use vstd::prelude::*;

use crate::approval::{decide_user_reply, reply_allows, reply_reason, approval_outcome, ApprovalManager};
use crate::domain::{opt_view, AssistantToolCall};
use crate::records::{ToolCallRecord, ToolFailureType, ToolProjectionType, ToolResultRecord};
use crate::registry::{find_tool, unknown_tool_message, ToolDefinition, ToolRegistry};
use crate::text::{
    char_count, concat2, concat3, contains_seq, contains_str, extend_str, find_str, from_chars,
    index_of, lemma_found_at, owned, sub_vec, take_chars, take_upto, to_chars,
};

verus! {

/// Why a JSON text does not parse (`serde_json::from_str` into a `Value`), if it does not.
pub uninterp spec fn json_syntax_error(text: Seq<char>) -> Option<Seq<char>>;

/// The error message of parsing `text` as JSON (`serde_json::from_str::<Value>`), or `None`
/// when it parses; the message is the named function of the text.
#[verifier::external_body]
fn json_parse_error(text: &str) -> (res: Option<String>)
    ensures
        opt_view(res) == json_syntax_error(text@),
{
    match serde_json::from_str::<serde_json::Value>(text) {
        Ok(_) => None,
        Err(error) => Some(error.to_string()),
    }
}

/// What a tool call produced.
#[derive(Debug)]
pub struct ToolExecutionReceipt {
    /// Call identifier.
    pub tool_call_id: String,
    /// Tool name.
    pub tool_name: String,
    /// Whether the call succeeded.
    pub success: bool,
    /// The tool's output.
    pub output: String,
    /// Error text.
    pub error_message: String,
    /// The text handed back to the model.
    pub projection_content: String,
    /// Why it failed.
    pub failure_type: Option<ToolFailureType>,
}

/// `r` is the receipt of a failed call with message `msg`.
pub open spec fn is_failure_receipt(
    r: ToolExecutionReceipt,
    call: AssistantToolCall,
    msg: Seq<char>,
    kind: ToolFailureType,
) -> bool {
    &&& r.tool_call_id@ == call.id@
    &&& r.tool_name@ == call.function.name@
    &&& !r.success
    &&& r.output@.len() == 0
    &&& r.error_message@ == msg
    &&& r.projection_content@ == msg
    &&& r.failure_type == Some(kind)
}

/// The note appended to an output too long to hand back whole.
pub open spec fn externalized_note() -> Seq<char> {
    "\n\n输出过长，完整结果已外置保存，请根据句柄按需读取。"@
}

/// The text handed back for an output: all of it within the limit, else its first `limit`
/// characters and a note.
pub open spec fn projection_of(output: Seq<char>, limit: int) -> Seq<char> {
    if output.len() <= limit {
        output
    } else {
        output.take(limit) + externalized_note()
    }
}

/// Error texts that mark bad arguments rather than a failing tool.
pub open spec fn marks_invalid_args(msg: Seq<char>) -> bool {
    contains_seq(msg, "参数非法"@) || contains_seq(msg, "replace_range"@) || contains_seq(
        msg,
        "缺少"@,
    ) || contains_seq(msg, "冲突"@)
}

/// The failure type of a tool error.
pub open spec fn failure_kind(msg: Seq<char>) -> ToolFailureType {
    if marks_invalid_args(msg) {
        ToolFailureType::InvalidArgs
    } else {
        ToolFailureType::ExecError
    }
}

/// The message for arguments that are not JSON.
pub open spec fn bad_json_message(err: Seq<char>) -> Seq<char> {
    "工具参数不是合法 JSON："@ + err
}

/// What happens to a call before its tool runs.
pub enum ExecutionPlan {
    /// The call ends here with this receipt.
    Done(ToolExecutionReceipt),
    /// The user must be asked; the answer goes to `after_user_reply`.
    AskUser,
    /// The tool runs; its outcome goes to `finish`.
    Run,
}

/// Runs tool calls against a registry under an approval manager.
pub struct ToolExecutor {
    /// The tools.
    pub registry: ToolRegistry,
    /// The approvals.
    pub approval_manager: ApprovalManager,
    /// Workspace root.
    pub workspace_root: String,
    /// Shell program.
    pub shell_program: String,
    /// Longest output handed back whole.
    pub inline_output_limit: usize,
}

/// `res` is what the checks before running `call` give, when parsing its arguments gave
/// `parse_error`.
pub open spec fn plan_matches(
    ex: ToolExecutor,
    call: AssistantToolCall,
    parse_error: Option<Seq<char>>,
    res: ExecutionPlan,
) -> bool {
    match parse_error {
        Some(err) => res matches ExecutionPlan::Done(r) && is_failure_receipt(
            r,
            call,
            bad_json_message(err),
            ToolFailureType::InvalidArgs,
        ),
        None => match find_tool(ex.registry@, call.function.name@, 0) {
            None => res matches ExecutionPlan::Done(r) && is_failure_receipt(
                r,
                call,
                unknown_tool_message(call.function.name@),
                ToolFailureType::ExecError,
            ),
            Some(i) => match approval_outcome(
                ex.approval_manager.mode_spec(),
                ex.approval_manager.capabilities_spec(),
                ex.registry@[i].risk,
                ex.registry@[i].name,
            ) {
                Some((true, _)) => res is Run,
                Some((false, reason)) => res matches ExecutionPlan::Done(r) && is_failure_receipt(
                    r,
                    call,
                    reason,
                    ToolFailureType::ApprovalDenied,
                ),
                None => res is AskUser,
            },
        },
    }
}

/// The text a receipt stands for: the output on success, else the error.
pub open spec fn effective_text(r: ToolExecutionReceipt) -> Seq<char> {
    if r.success {
        r.output@
    } else {
        r.error_message@
    }
}

/// The last `n` characters of `s`, or all of `s` when it is shorter.
pub open spec fn tail_upto(s: Seq<char>, n: int) -> Seq<char> {
    if s.len() > n {
        s.skip(s.len() - n)
    } else {
        s
    }
}

/// The first line of `s` (std's `str::lines().next()`, empty when there is none): up to the
/// first line feed, without a carriage return right before it.
pub open spec fn first_line(s: Seq<char>) -> Seq<char> {
    match index_of(s, "\n"@) {
        Some(i) => {
            let l = s.take(i);
            if l.len() > 0 && l.last() == '\r' {
                l.drop_last()
            } else {
                l
            }
        },
        None => s,
    }
}

/// How a result of `count` characters is handed back under `limit`.
pub open spec fn projection_type_for(count: int, limit: int) -> ToolProjectionType {
    if count > limit {
        if count > limit * 4 {
            ToolProjectionType::SummaryOnly
        } else {
            ToolProjectionType::SummaryWithPreview
        }
    } else {
        ToolProjectionType::InlineFull
    }
}

/// The text kept as the projection of a receipt's result.
pub open spec fn record_projection(r: ToolExecutionReceipt, limit: int) -> Seq<char> {
    let text = effective_text(r);
    match projection_type_for(text.len() as int, limit) {
        ToolProjectionType::SummaryWithPreview => r.projection_content@ + "\n\npreview_head:\n"@
            + take_upto(text, 120) + "\n\npreview_tail:\n"@ + tail_upto(text, 120),
        ToolProjectionType::SummaryOnly => first_line(r.projection_content@),
        _ => r.projection_content@,
    }
}

/// The one-line summary of a receipt.
pub open spec fn record_summary(r: ToolExecutionReceipt) -> Seq<char> {
    if r.success {
        "工具 "@ + r.tool_name@ + " 执行成功"@
    } else {
        "工具 "@ + r.tool_name@ + " 执行失败："@ + r.error_message@
    }
}

/// The first line of `s`.
fn first_line_of(s: &str) -> (res: String)
    ensures
        res@ == first_line(s@),
{
    match find_str(s, "\n") {
        Some(i) => {
            let v = to_chars(s);
            proof {
                lemma_found_at(s@, "\n"@, 0, i as int);
            }
            let mut l = sub_vec(&v, 0, i);
            assert(l@ =~= s@.take(i as int));
            if l.len() > 0 && l[l.len() - 1] == '\r' {
                l.pop();
                assert(l@ =~= s@.take(i as int).drop_last());
            }
            from_chars(&l)
        },
        None => owned(s),
    }
}

/// The last `n` characters of `s`.
fn tail_chars(s: &str, n: usize) -> (res: String)
    ensures
        res@ == tail_upto(s@, n as int),
{
    let v = to_chars(s);
    if v.len() > n {
        let t = sub_vec(&v, v.len() - n, v.len());
        assert(t@ =~= s@.skip(s@.len() - n));
        from_chars(&t)
    } else {
        from_chars(&v)
    }
}

/// The name of the file that holds an externalized result.
pub fn tool_result_file_name(tool_call_id: &str) -> (res: String)
    ensures
        res@ == tool_call_id@ + ".txt"@,
{
    concat2(tool_call_id, ".txt")
}

/// The failure receipt of `call` with message `msg`.
fn failure_receipt(call: &AssistantToolCall, msg: String, kind: ToolFailureType) -> (res:
    ToolExecutionReceipt)
    ensures
        is_failure_receipt(res, *call, msg@, kind),
{
    let projection = msg.clone();
    proof {
        reveal_strlit("");
    }
    ToolExecutionReceipt {
        tool_call_id: call.id.clone(),
        tool_name: call.function.name.clone(),
        success: false,
        output: owned(""),
        error_message: msg,
        projection_content: projection,
        failure_type: Some(kind),
    }
}

/// Whether a tool error marks bad arguments.
pub fn classify_failure(message: &str) -> (res: ToolFailureType)
    ensures
        res == failure_kind(message@),
{
    if contains_str(message, "参数非法") || contains_str(message, "replace_range") || contains_str(
        message,
        "缺少",
    ) || contains_str(message, "冲突") {
        ToolFailureType::InvalidArgs
    } else {
        ToolFailureType::ExecError
    }
}

impl ToolExecutor {
    /// An executor.
    pub fn new(
        registry: ToolRegistry,
        approval_manager: ApprovalManager,
        workspace_root: String,
        shell_program: String,
        inline_output_limit: usize,
    ) -> (res: ToolExecutor)
        ensures
            res.registry@ == registry@,
            res.approval_manager.mode_spec() == approval_manager.mode_spec(),
            res.approval_manager.capabilities_spec() == approval_manager.capabilities_spec(),
            res.workspace_root == workspace_root,
            res.shell_program == shell_program,
            res.inline_output_limit == inline_output_limit,
    {
        ToolExecutor {
            registry,
            approval_manager,
            workspace_root,
            shell_program,
            inline_output_limit,
        }
    }

    /// The text handed back for `output`.
    pub fn build_projection(&self, output: &str) -> (res: String)
        ensures
            res@ == projection_of(output@, self.inline_output_limit as int),
    {
        if char_count(output) <= self.inline_output_limit {
            owned(output)
        } else {
            let preview = take_chars(output, self.inline_output_limit);
            concat2(preview.as_str(), "\n\n输出过长，完整结果已外置保存，请根据句柄按需读取。")
        }
    }

    /// Whether the result of a receipt is kept in a file of its own: it is longer than the
    /// inline limit.
    pub fn externalizes(&self, receipt: &ToolExecutionReceipt) -> (res: bool)
        ensures
            res == (effective_text(*receipt).len() > self.inline_output_limit),
    {
        let text = if receipt.success {
            receipt.output.as_str()
        } else {
            receipt.error_message.as_str()
        };
        char_count(text) > self.inline_output_limit
    }

    /// The index record of a receipt's result, with the file that holds it (empty when it is
    /// not externalized) and the time of the update.
    pub fn result_record(
        &self,
        receipt: &ToolExecutionReceipt,
        body_file_path: String,
        updated_at: String,
    ) -> (res: ToolResultRecord)
        ensures
            res.tool_call_id@ == receipt.tool_call_id@,
            res.tool_name@ == receipt.tool_name@,
            res.handle@ == "tool:"@ + receipt.tool_call_id@,
            res.body_file_path == body_file_path,
            res.projection_type == projection_type_for(
                effective_text(*receipt).len() as int,
                self.inline_output_limit as int,
            ),
            res.projection_content@ == record_projection(*receipt, self.inline_output_limit as int),
            res.summary@ == record_summary(*receipt),
            res.preview_head@ == take_upto(effective_text(*receipt), 120),
            res.preview_tail@ == tail_upto(effective_text(*receipt), 120),
            res.char_count == effective_text(*receipt).len(),
            res.byte_count == vstd::utf8::encode_utf8(effective_text(*receipt)).len() as usize,
            res.success == receipt.success,
            res.externalized == (effective_text(*receipt).len() > self.inline_output_limit),
            res.truncated == res.externalized,
            res.updated_at == updated_at,
    {
        let text = if receipt.success {
            receipt.output.as_str()
        } else {
            receipt.error_message.as_str()
        };
        let count = char_count(text);
        let bytes = text.len();
        let limit = self.inline_output_limit;
        let externalized = count > limit;
        let head = take_chars(text, 120);
        let tail = tail_chars(text, 120);
        let projection_type = if externalized {
            if limit <= usize::MAX / 4 && count > limit * 4 {
                ToolProjectionType::SummaryOnly
            } else {
                ToolProjectionType::SummaryWithPreview
            }
        } else {
            ToolProjectionType::InlineFull
        };
        let projection_content = match projection_type {
            ToolProjectionType::SummaryWithPreview => {
                let mut v = to_chars(receipt.projection_content.as_str());
                extend_str(&mut v, "\n\npreview_head:\n");
                extend_str(&mut v, head.as_str());
                extend_str(&mut v, "\n\npreview_tail:\n");
                extend_str(&mut v, tail.as_str());
                from_chars(&v)
            },
            ToolProjectionType::SummaryOnly => first_line_of(receipt.projection_content.as_str()),
            _ => receipt.projection_content.clone(),
        };
        let summary = if receipt.success {
            concat3("工具 ", receipt.tool_name.as_str(), " 执行成功")
        } else {
            let mut v = to_chars("工具 ");
            extend_str(&mut v, receipt.tool_name.as_str());
            extend_str(&mut v, " 执行失败：");
            extend_str(&mut v, receipt.error_message.as_str());
            from_chars(&v)
        };
        ToolResultRecord {
            tool_call_id: receipt.tool_call_id.clone(),
            tool_name: receipt.tool_name.clone(),
            handle: concat2("tool:", receipt.tool_call_id.as_str()),
            body_file_path,
            projection_type,
            projection_content,
            summary,
            preview_head: head,
            preview_tail: tail,
            char_count: count,
            byte_count: bytes,
            success: receipt.success,
            truncated: externalized,
            externalized,
            updated_at,
        }
    }

    /// The record of a call, `done` or `failed`, created and updated at the given times.
    pub fn call_record(
        &self,
        receipt: &ToolExecutionReceipt,
        session_id: &str,
        round_no: i64,
        arguments_json: &str,
        created_at: String,
        updated_at: String,
    ) -> (res: ToolCallRecord)
        ensures
            res.id@ == receipt.tool_call_id@,
            res.session_id@ == session_id@,
            res.round_no == round_no,
            res.tool_name@ == receipt.tool_name@,
            res.arguments_json@ == arguments_json@,
            res.status@ == (if receipt.success { "done"@ } else { "failed"@ }),
            res.success == receipt.success,
            res.failure_type == receipt.failure_type,
            res.error_message@ == receipt.error_message@,
            res.created_at == created_at,
            res.updated_at == updated_at,
    {
        ToolCallRecord {
            id: receipt.tool_call_id.clone(),
            session_id: owned(session_id),
            round_no,
            tool_name: receipt.tool_name.clone(),
            arguments_json: owned(arguments_json),
            status: if receipt.success {
                owned("done")
            } else {
                owned("failed")
            },
            success: receipt.success,
            failure_type: receipt.failure_type,
            error_message: receipt.error_message.clone(),
            created_at,
            updated_at,
        }
    }

    /// The checks before a call's tool runs, given the outcome of parsing its arguments as
    /// JSON: bad JSON and unknown tools end the call, then approval decides, or asks the user.
    pub fn plan_with_parse(&self, call: &AssistantToolCall, parse_error: Option<String>) -> (res:
        ExecutionPlan)
        ensures
            plan_matches(*self, *call, opt_view(parse_error), res),
    {
        if let Some(err) = parse_error {
            let msg = concat2("工具参数不是合法 JSON：", err.as_str());
            return ExecutionPlan::Done(failure_receipt(call, msg, ToolFailureType::InvalidArgs));
        }
        let definition = match self.registry.get(call.function.name.as_str()) {
            Ok(d) => d,
            Err(msg) => {
                return ExecutionPlan::Done(failure_receipt(call, msg, ToolFailureType::ExecError));
            },
        };
        match self.approval_manager.approve(definition) {
            None => ExecutionPlan::AskUser,
            Some(decision) => {
                if decision.approved {
                    ExecutionPlan::Run
                } else {
                    ExecutionPlan::Done(
                        failure_receipt(call, decision.reason, ToolFailureType::ApprovalDenied),
                    )
                }
            },
        }
    }

    /// The checks before a call's tool runs (see `plan_with_parse`), parsing its arguments.
    pub fn plan(&self, call: &AssistantToolCall) -> (res: ExecutionPlan)
        ensures
            plan_matches(*self, *call, json_syntax_error(call.function.arguments@), res),
    {
        let parse_error = json_parse_error(call.function.arguments.as_str());
        self.plan_with_parse(call, parse_error)
    }

    /// After asking the user: run the tool on a yes, else end the call as denied.
    pub fn after_user_reply(&self, call: &AssistantToolCall, reply: &str) -> (res: ExecutionPlan)
        ensures
            reply_allows(reply@) ==> res is Run,
            !reply_allows(reply@) ==> (res matches ExecutionPlan::Done(r) && is_failure_receipt(
                r,
                *call,
                reply_reason(false),
                ToolFailureType::ApprovalDenied,
            )),
    {
        let decision = decide_user_reply(reply);
        if decision.approved {
            ExecutionPlan::Run
        } else {
            ExecutionPlan::Done(
                failure_receipt(call, decision.reason, ToolFailureType::ApprovalDenied),
            )
        }
    }

    /// Ends a call whose approval could not be obtained (the prompt failed).
    pub fn approval_failed(&self, call: &AssistantToolCall, message: String) -> (res:
        ToolExecutionReceipt)
        ensures
            is_failure_receipt(res, *call, message@, ToolFailureType::ApprovalDenied),
    {
        failure_receipt(call, message, ToolFailureType::ApprovalDenied)
    }

    /// The receipt of a call whose tool ran: its output and projection on success, else the
    /// error, classed as bad arguments or a failing tool.
    pub fn finish(&self, call: &AssistantToolCall, outcome: Result<String, String>) -> (res:
        ToolExecutionReceipt)
        ensures
            match outcome {
                Ok(output) => {
                    &&& res.tool_call_id@ == call.id@
                    &&& res.tool_name@ == call.function.name@
                    &&& res.success
                    &&& res.output@ == output@
                    &&& res.error_message@.len() == 0
                    &&& res.projection_content@ == projection_of(
                        output@,
                        self.inline_output_limit as int,
                    )
                    &&& res.failure_type is None
                },
                Err(msg) => is_failure_receipt(res, *call, msg@, failure_kind(msg@)),
            },
    {
        match outcome {
            Ok(output) => {
                let projection = self.build_projection(output.as_str());
                proof {
                    reveal_strlit("");
                }
                ToolExecutionReceipt {
                    tool_call_id: call.id.clone(),
                    tool_name: call.function.name.clone(),
                    success: true,
                    output,
                    error_message: owned(""),
                    projection_content: projection,
                    failure_type: None,
                }
            },
            Err(msg) => {
                let kind = classify_failure(msg.as_str());
                failure_receipt(call, msg, kind)
            },
        }
    }
}

} // verus!
