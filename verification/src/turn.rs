//! One turn of the agent: the rounds of model calls and tool calls that answer a user's
//! input, with their limits. The turn is a state machine: each step takes what the last
//! action produced and says what to do next.

use vstd::prelude::*;

use crate::context::{
    build_matches, context_fits, context_fits_check, ContextBuildResult,
    ConversationContextBuilder,
};
use crate::domain::{
    clone_opt_string, clone_tool_calls, messages_view, opt_view, AssistantToolCall, Message,
    MessageRole, MessageView,
};
use crate::executor::ToolExecutionReceipt;
use crate::records::{Session, ToolFailureType};
use crate::text::{concat2, concat3, contains_seq, contains_str, decimal, decimal_text};

verus! {

/// What the model answered.
#[derive(Debug)]
pub struct ModelResponse {
    /// Text.
    pub content: String,
    /// Reasoning text.
    pub reasoning_content: Option<String>,
    /// Tool calls.
    pub tool_calls: Vec<AssistantToolCall>,
    /// Input tokens used.
    pub input_tokens: usize,
    /// Output tokens used.
    pub output_tokens: usize,
    /// Whether streaming fell back to a plain request.
    pub stream_fallback: bool,
}

/// How a turn ended.
#[derive(Debug)]
pub struct TurnOutcome {
    /// The model's final text.
    pub final_message: String,
    /// Input tokens: the larger of the model's count and the estimate.
    pub input_tokens: usize,
    /// Output tokens.
    pub output_tokens: usize,
    /// Whether the context was compacted or streaming fell back.
    pub compacted: bool,
}

/// The limits of a turn.
#[derive(Debug, Clone, Copy)]
pub struct TurnLimits {
    /// Model calls per turn.
    pub max_rounds: usize,
    /// Calls with bad arguments per turn.
    pub invalid_arg_retry_limit: usize,
    /// Failed tool calls per turn.
    pub tool_failure_limit: usize,
    /// Tool calls per turn.
    pub tool_call_limit: usize,
}

/// Why a turn stopped.
#[derive(Debug, Clone, Copy, PartialEq, Eq, Structural)]
pub enum TurnError {
    /// More tool calls than the limit.
    ToolCallLimit(usize),
    /// The limit of calls with bad arguments was reached.
    InvalidArgLimit(usize),
    /// The limit of failed calls was reached.
    ToolFailureLimit(usize),
    /// No answer within the limit of rounds.
    RoundLimit(usize),
    /// The history is too large to estimate.
    ContextTooLarge,
}

/// The message of a turn error.
pub open spec fn turn_error_message(e: TurnError) -> Seq<char> {
    match e {
        TurnError::ToolCallLimit(n) => "单轮工具调用次数超过上限 "@ + decimal(n as nat),
        TurnError::InvalidArgLimit(n) => "连续非法工具参数次数达到上限 "@ + decimal(n as nat)
            + "，当前轮执行终止"@,
        TurnError::ToolFailureLimit(n) => "工具连续失败次数达到上限 "@ + decimal(n as nat)
            + "，当前轮执行终止"@,
        TurnError::RoundLimit(n) => "超过最大循环轮数 "@ + decimal(n as nat) + "，任务被终止"@,
        TurnError::ContextTooLarge => "上下文过大，无法估算 Token 数"@,
    }
}

impl TurnError {
    /// The message of the error.
    pub fn message(&self) -> (res: String)
        ensures
            res@ == turn_error_message(*self),
    {
        match self {
            TurnError::ToolCallLimit(n) => {
                let d = decimal_text(*n as u64);
                concat2("单轮工具调用次数超过上限 ", d.as_str())
            },
            TurnError::InvalidArgLimit(n) => {
                let d = decimal_text(*n as u64);
                concat3("连续非法工具参数次数达到上限 ", d.as_str(), "，当前轮执行终止")
            },
            TurnError::ToolFailureLimit(n) => {
                let d = decimal_text(*n as u64);
                concat3("工具连续失败次数达到上限 ", d.as_str(), "，当前轮执行终止")
            },
            TurnError::RoundLimit(n) => {
                let d = decimal_text(*n as u64);
                concat3("超过最大循环轮数 ", d.as_str(), "，任务被终止")
            },
            TurnError::ContextTooLarge => crate::text::owned("上下文过大，无法估算 Token 数"),
        }
    }
}

/// The context window of a model: a million tokens for a `[1m]` model, else 256,000.
pub open spec fn window_of(model: Seq<char>) -> usize {
    if contains_seq(model, "[1m]"@) {
        1_000_000
    } else {
        256_000
    }
}

/// The context window of a model.
pub fn model_context_window(model: &str) -> (res: usize)
    ensures
        res == window_of(model@),
{
    if contains_str(model, "[1m]") {
        1_000_000
    } else {
        256_000
    }
}

/// What the context has left after a round: the window less the larger of the input tokens
/// and the estimate, at least 0.
pub open spec fn remaining_of(model: Seq<char>, input_tokens: usize, estimated_after: usize) -> int {
    let used = if input_tokens >= estimated_after {
        input_tokens
    } else {
        estimated_after
    };
    if window_of(model) >= used {
        window_of(model) - used
    } else {
        0
    }
}

/// What the context has left after a round.
pub fn remaining_context(model: &str, input_tokens: usize, estimated_after: usize) -> (res: usize)
    ensures
        res == remaining_of(model@, input_tokens, estimated_after),
{
    let used = if input_tokens >= estimated_after {
        input_tokens
    } else {
        estimated_after
    };
    let window = model_context_window(model);
    if window >= used {
        window - used
    } else {
        0
    }
}

/// The state of a turn.
pub struct TurnState {
    /// The conversation so far.
    pub history: Vec<Message>,
    /// Rounds begun.
    pub rounds_started: usize,
    /// Calls that failed on their arguments.
    pub invalid_arg_failures: usize,
    /// Calls that failed otherwise.
    pub tool_failures: usize,
    /// Calls begun.
    pub total_tool_calls: usize,
    /// The calls of the model's last answer.
    pub pending_calls: Vec<AssistantToolCall>,
    /// The next of them to run.
    pub next_call: usize,
    /// Estimated tokens of this round's context before compaction.
    pub estimated_tokens_before: usize,
    /// Estimated tokens of this round's context as sent.
    pub estimated_tokens_after: usize,
    /// Whether this round's context was compacted.
    pub compacted: bool,
}

/// The state of a turn as plain values.
#[verifier::ext_equal]
pub struct TurnView {
    /// The conversation so far.
    pub history: Seq<MessageView>,
    /// Rounds begun.
    pub rounds_started: usize,
    /// Calls that failed on their arguments.
    pub invalid_arg_failures: usize,
    /// Calls that failed otherwise.
    pub tool_failures: usize,
    /// Calls begun.
    pub total_tool_calls: usize,
    /// The calls of the model's last answer.
    pub pending_calls: Seq<AssistantToolCall>,
    /// The next of them to run.
    pub next_call: usize,
    /// Estimated tokens before compaction.
    pub estimated_tokens_before: usize,
    /// Estimated tokens as sent.
    pub estimated_tokens_after: usize,
    /// Whether the context was compacted.
    pub compacted: bool,
}

impl View for TurnState {
    type V = TurnView;

    open spec fn view(&self) -> TurnView {
        TurnView {
            history: messages_view(self.history@),
            rounds_started: self.rounds_started,
            invalid_arg_failures: self.invalid_arg_failures,
            tool_failures: self.tool_failures,
            total_tool_calls: self.total_tool_calls,
            pending_calls: self.pending_calls@,
            next_call: self.next_call,
            estimated_tokens_before: self.estimated_tokens_before,
            estimated_tokens_after: self.estimated_tokens_after,
            compacted: self.compacted,
        }
    }
}

/// What to do next in a turn.
pub enum TurnAction {
    /// Call the model with this context (saving its summary first, if any).
    CallModel(ContextBuildResult),
    /// Run this tool call and hand its receipt to `on_tool_receipt`.
    RunTool(AssistantToolCall),
    /// The turn is answered.
    Finish(TurnOutcome),
    /// The turn stops with this error.
    Fail(TurnError),
}

/// A message of the given role and text, with nothing else set.
pub open spec fn plain_view(role: MessageRole, content: Seq<char>) -> MessageView {
    MessageView {
        role,
        content,
        name: None,
        tool_call_id: None,
        tool_calls: Seq::empty(),
        reasoning_content: None,
        metadata: None,
    }
}

/// An assistant message.
pub open spec fn assistant_view(
    content: Seq<char>,
    calls: Seq<AssistantToolCall>,
    reasoning: Option<Seq<char>>,
) -> MessageView {
    MessageView {
        role: MessageRole::Assistant,
        content,
        name: None,
        tool_call_id: None,
        tool_calls: calls,
        reasoning_content: reasoning,
        metadata: None,
    }
}

/// A tool message answering `call_id`.
pub open spec fn tool_message_view(call_id: Seq<char>, content: Seq<char>) -> MessageView {
    MessageView {
        role: MessageRole::Tool,
        content,
        name: None,
        tool_call_id: Some(call_id),
        tool_calls: Seq::empty(),
        reasoning_content: None,
        metadata: None,
    }
}

/// The text handed back to the model for a receipt.
pub open spec fn tool_content(r: ToolExecutionReceipt) -> Seq<char> {
    if r.success {
        r.projection_content@
    } else {
        "工具执行失败："@ + r.error_message@
    }
}

/// One more, stopping at the largest `usize`.
pub open spec fn bump(n: usize) -> usize {
    if n < usize::MAX {
        (n + 1) as usize
    } else {
        n
    }
}

/// A new round: stop when the rounds are used up or the history cannot be estimated, else
/// build the context and call the model.
pub open spec fn round_step(
    limits: TurnLimits,
    model: Seq<char>,
    sp: Seq<char>,
    pre: TurnView,
    post: TurnView,
    act: TurnAction,
) -> bool {
    if pre.rounds_started >= limits.max_rounds {
        post == pre && act == TurnAction::Fail(TurnError::RoundLimit(limits.max_rounds))
    } else if !context_fits(sp, pre.history) {
        post == pre && act == TurnAction::Fail(TurnError::ContextTooLarge)
    } else {
        act matches TurnAction::CallModel(ctx) && build_matches(window_of(model), sp, pre.history, ctx)
            && post == TurnView {
            rounds_started: (pre.rounds_started + 1) as usize,
            estimated_tokens_before: ctx.estimated_tokens_before,
            estimated_tokens_after: ctx.estimated_tokens_after,
            compacted: ctx.compacted,
            ..pre
        }
    }
}

/// The next tool call: run it unless the calls are used up; after the last one, stop at the
/// failure limits, else begin a new round.
pub open spec fn tool_step(
    limits: TurnLimits,
    model: Seq<char>,
    sp: Seq<char>,
    pre: TurnView,
    post: TurnView,
    act: TurnAction,
) -> bool {
    if pre.next_call < pre.pending_calls.len() {
        if pre.total_tool_calls >= limits.tool_call_limit {
            post == pre && act == TurnAction::Fail(TurnError::ToolCallLimit(limits.tool_call_limit))
        } else {
            act == TurnAction::RunTool(pre.pending_calls[pre.next_call as int]) && post
                == TurnView {
                total_tool_calls: (pre.total_tool_calls + 1) as usize,
                next_call: (pre.next_call + 1) as usize,
                ..pre
            }
        }
    } else if pre.invalid_arg_failures >= limits.invalid_arg_retry_limit {
        post == pre && act == TurnAction::Fail(
            TurnError::InvalidArgLimit(limits.invalid_arg_retry_limit),
        )
    } else if pre.tool_failures >= limits.tool_failure_limit {
        post == pre && act == TurnAction::Fail(TurnError::ToolFailureLimit(limits.tool_failure_limit))
    } else {
        round_step(limits, model, sp, pre, post, act)
    }
}

/// The state after a model answer with tool calls: the answer joins the history and its
/// calls become pending.
pub open spec fn reply_applied(pre: TurnView, r: ModelResponse) -> TurnView {
    TurnView {
        history: pre.history.push(
            assistant_view(r.content@, r.tool_calls@, opt_view(r.reasoning_content)),
        ),
        pending_calls: r.tool_calls@,
        next_call: 0,
        ..pre
    }
}

/// The state after a tool call's receipt: its text joins the history and a failure is
/// counted as bad arguments or as a failing tool.
pub open spec fn receipt_applied(pre: TurnView, r: ToolExecutionReceipt) -> TurnView {
    let invalid = !r.success && r.failure_type == Some(ToolFailureType::InvalidArgs);
    let other = !r.success && r.failure_type != Some(ToolFailureType::InvalidArgs);
    TurnView {
        history: pre.history.push(tool_message_view(r.tool_call_id@, tool_content(r))),
        invalid_arg_failures: if invalid {
            bump(pre.invalid_arg_failures)
        } else {
            pre.invalid_arg_failures
        },
        tool_failures: if other {
            bump(pre.tool_failures)
        } else {
            pre.tool_failures
        },
        ..pre
    }
}

/// The start of a turn: the history with the user's input, and nothing counted yet.
pub open spec fn turn_start(history: Seq<MessageView>, input: Seq<char>) -> TurnView {
    TurnView {
        history: history.push(plain_view(MessageRole::User, input)),
        rounds_started: 0,
        invalid_arg_failures: 0,
        tool_failures: 0,
        total_tool_calls: 0,
        pending_calls: Seq::empty(),
        next_call: 0,
        estimated_tokens_before: 0,
        estimated_tokens_after: 0,
        compacted: false,
    }
}

/// Runs the turns of a session under limits.
pub struct AgentLoopRunner {
    /// The limits of a turn.
    pub limits: TurnLimits,
}

impl AgentLoopRunner {
    /// A runner with the given limits.
    pub fn new(limits: TurnLimits) -> (res: AgentLoopRunner)
        ensures
            res.limits == limits,
    {
        AgentLoopRunner { limits }
    }

    /// Begins a turn on `history` with the user's input.
    pub fn start_turn(&self, session: &Session, history: Vec<Message>, user_input: &str) -> (res: (
        TurnState,
        TurnAction,
    ))
        ensures
            round_step(
                self.limits,
                session.model@,
                session.system_prompt@,
                turn_start(messages_view(history@), user_input@),
                res.0@,
                res.1,
            ),
    {
        let ghost hv = messages_view(history@);
        let mut history = history;
        history.push(Message::user(crate::text::owned(user_input)));
        let mut state = TurnState {
            history,
            rounds_started: 0,
            invalid_arg_failures: 0,
            tool_failures: 0,
            total_tool_calls: 0,
            pending_calls: Vec::new(),
            next_call: 0,
            estimated_tokens_before: 0,
            estimated_tokens_after: 0,
            compacted: false,
        };
        assert(state@ =~= turn_start(hv, user_input@));
        let act = self.begin_round(session, &mut state);
        (state, act)
    }

    /// A new round (see `round_step`).
    fn begin_round(&self, session: &Session, state: &mut TurnState) -> (res: TurnAction)
        ensures
            round_step(
                self.limits,
                session.model@,
                session.system_prompt@,
                old(state)@,
                final(state)@,
                res,
            ),
    {
        if state.rounds_started >= self.limits.max_rounds {
            return TurnAction::Fail(TurnError::RoundLimit(self.limits.max_rounds));
        }
        if !context_fits_check(session.system_prompt.as_str(), &state.history) {
            return TurnAction::Fail(TurnError::ContextTooLarge);
        }
        let builder = ConversationContextBuilder::new(model_context_window(session.model.as_str()));
        let ctx = builder.build(session.system_prompt.as_str(), &state.history);
        state.rounds_started = state.rounds_started + 1;
        state.estimated_tokens_before = ctx.estimated_tokens_before;
        state.estimated_tokens_after = ctx.estimated_tokens_after;
        state.compacted = ctx.compacted;
        TurnAction::CallModel(ctx)
    }

    /// The next tool call (see `tool_step`).
    fn next_tool(&self, session: &Session, state: &mut TurnState) -> (res: TurnAction)
        ensures
            tool_step(
                self.limits,
                session.model@,
                session.system_prompt@,
                old(state)@,
                final(state)@,
                res,
            ),
    {
        if state.next_call < state.pending_calls.len() {
            if state.total_tool_calls >= self.limits.tool_call_limit {
                return TurnAction::Fail(TurnError::ToolCallLimit(self.limits.tool_call_limit));
            }
            let call = state.pending_calls[state.next_call].clone();
            state.total_tool_calls = state.total_tool_calls + 1;
            state.next_call = state.next_call + 1;
            return TurnAction::RunTool(call);
        }
        if state.invalid_arg_failures >= self.limits.invalid_arg_retry_limit {
            return TurnAction::Fail(TurnError::InvalidArgLimit(self.limits.invalid_arg_retry_limit));
        }
        if state.tool_failures >= self.limits.tool_failure_limit {
            return TurnAction::Fail(TurnError::ToolFailureLimit(self.limits.tool_failure_limit));
        }
        self.begin_round(session, state)
    }

    /// The model answered: with tool calls, record the answer and run them; else the turn is
    /// answered with the model's text.
    pub fn on_model_reply(
        &self,
        session: &Session,
        state: &mut TurnState,
        response: ModelResponse,
    ) -> (res: TurnAction)
        ensures
            response.tool_calls@.len() > 0 ==> tool_step(
                self.limits,
                session.model@,
                session.system_prompt@,
                reply_applied(old(state)@, response),
                final(state)@,
                res,
            ),
            response.tool_calls@.len() == 0 ==> {
                &&& final(state)@ == TurnView {
                    history: old(state)@.history.push(
                        assistant_view(
                            response.content@,
                            Seq::empty(),
                            opt_view(response.reasoning_content),
                        ),
                    ),
                    ..old(state)@
                }
                &&& res matches TurnAction::Finish(o)
                &&& o.final_message@ == response.content@
                &&& o.input_tokens == (if response.input_tokens >= old(
                    state,
                ).estimated_tokens_before {
                    response.input_tokens
                } else {
                    old(state).estimated_tokens_before
                })
                &&& o.output_tokens == response.output_tokens
                &&& o.compacted == (old(state).compacted || response.stream_fallback)
            },
    {
        let ghost pre = state@;
        if response.tool_calls.len() > 0 {
            let calls = clone_tool_calls(&response.tool_calls);
            let reasoning = clone_opt_string(&response.reasoning_content);
            state.history.push(Message::assistant(response.content, calls, reasoning));
            state.pending_calls = response.tool_calls;
            state.next_call = 0;
            assert(state@ =~= reply_applied(pre, response));
            return self.next_tool(session, state);
        }
        let content = response.content.clone();
        state.history.push(Message::assistant(content, Vec::new(), response.reasoning_content));
        let input_tokens = if response.input_tokens >= state.estimated_tokens_before {
            response.input_tokens
        } else {
            state.estimated_tokens_before
        };
        assert(state@.history =~= pre.history.push(
            assistant_view(response.content@, Seq::empty(), opt_view(response.reasoning_content)),
        ));
        TurnAction::Finish(
            TurnOutcome {
                final_message: response.content,
                input_tokens,
                output_tokens: response.output_tokens,
                compacted: state.compacted || response.stream_fallback,
            },
        )
    }

    /// A tool call finished: record its text and count a failure, then go on (see
    /// `receipt_applied` and `tool_step`).
    pub fn on_tool_receipt(
        &self,
        session: &Session,
        state: &mut TurnState,
        receipt: &ToolExecutionReceipt,
    ) -> (res: TurnAction)
        ensures
            tool_step(
                self.limits,
                session.model@,
                session.system_prompt@,
                receipt_applied(old(state)@, *receipt),
                final(state)@,
                res,
            ),
    {
        let ghost pre = state@;
        if !receipt.success {
            let invalid = match receipt.failure_type {
                Some(ToolFailureType::InvalidArgs) => true,
                _ => false,
            };
            if invalid {
                if state.invalid_arg_failures < usize::MAX {
                    state.invalid_arg_failures = state.invalid_arg_failures + 1;
                }
            } else {
                if state.tool_failures < usize::MAX {
                    state.tool_failures = state.tool_failures + 1;
                }
            }
        }
        let content = if receipt.success {
            receipt.projection_content.clone()
        } else {
            concat2("工具执行失败：", receipt.error_message.as_str())
        };
        state.history.push(Message::tool(receipt.tool_call_id.clone(), content));
        assert(state@ =~= receipt_applied(pre, *receipt));
        self.next_tool(session, state)
    }
}

} // verus!
