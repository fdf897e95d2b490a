//! The conversation context sent to the model: a token estimate, a budget, and the
//! compaction of older history into a summary when the budget is exceeded.

use vstd::prelude::*;

use crate::domain::{
    clone_opt_string, messages_view, opt_view, Message, MessageRole, MessageView, role_label,
};
use crate::text::{
    char_count, ellipsis_truncated, extend_str, from_chars, owned, to_chars, truncate_ellipsis,
};

verus! {

/// Estimated tokens of a text: half its characters plus one.
pub open spec fn est(s: Seq<char>) -> nat {
    s.len() / 2 + 1
}

/// Sum of the estimated tokens of the messages' texts.
pub open spec fn tokens_sum(h: Seq<MessageView>) -> nat
    decreases h.len(),
{
    if h.len() == 0 {
        0
    } else {
        est(h[0].content) + tokens_sum(h.drop_first())
    }
}

/// Estimated tokens of the `c` most recent messages.
pub open spec fn suffix_tokens(h: Seq<MessageView>, c: int) -> nat {
    tokens_sum(h.subrange(h.len() - c, h.len() as int))
}

/// The budget for a context window: 80 % of it (the window saturates at `usize::MAX` when multiplied).
pub open spec fn budget_of(max_context_tokens: usize) -> int {
    let scaled = if max_context_tokens * 8 <= usize::MAX {
        max_context_tokens * 8
    } else {
        usize::MAX as int
    };
    scaled / 10
}

/// Estimated tokens of a prompt together with a history.
pub open spec fn estimate_total(system_prompt: Seq<char>, h: Seq<MessageView>) -> nat {
    est(system_prompt) + tokens_sum(h)
}

/// How many of the most recent messages are kept: walking from the newest, a message is kept
/// unless keeping it would exceed the budget and at least one message is already kept.
pub open spec fn kept_count(h: Seq<MessageView>, budget: int, base: int, c: nat) -> nat
    decreases h.len() - c,
{
    if c >= h.len() {
        c
    } else if base + suffix_tokens(h, c as int) + est(h[h.len() - 1 - c].content) > budget
        && c > 0 {
        c
    } else {
        kept_count(h, budget, base, c + 1)
    }
}

/// One line of the summary of a dropped message.
pub open spec fn summary_line(m: MessageView) -> Seq<char> {
    "- "@ + role_label(m.role) + ": "@ + ellipsis_truncated(m.content, 80)
}

/// The summary lines of the messages, joined by newlines.
pub open spec fn summary_body(h: Seq<MessageView>) -> Seq<char>
    decreases h.len(),
{
    if h.len() == 0 {
        Seq::empty()
    } else if h.len() == 1 {
        summary_line(h[0])
    } else {
        summary_body(h.drop_last()) + "\n"@ + summary_line(h.last())
    }
}

/// The heading of a history summary.
pub open spec fn summary_heading() -> Seq<char> {
    "历史摘要（自动压缩）：\n"@
}

/// The summary of the dropped messages.
pub open spec fn summary_text(dropped: Seq<MessageView>) -> Seq<char> {
    summary_heading() + summary_body(dropped)
}

/// The view of a system message with the given text.
pub open spec fn system_view(content: Seq<char>) -> MessageView {
    MessageView {
        role: MessageRole::System,
        content,
        name: None,
        tool_call_id: None,
        tool_calls: Seq::empty(),
        reasoning_content: None,
        metadata: None,
    }
}

/// The prompt and history fit the machine's integers, with room for a summary line per message.
pub open spec fn context_fits(system_prompt: Seq<char>, h: Seq<MessageView>) -> bool {
    estimate_total(system_prompt, h) + 100 * h.len() + 100 <= usize::MAX
}

/// The outcome of building a context.
pub struct ContextBuildResult {
    /// The messages sent to the model.
    pub messages: Vec<Message>,
    /// Whether older history was compacted.
    pub compacted: bool,
    /// Estimated tokens before compaction.
    pub estimated_tokens_before: usize,
    /// Estimated tokens of the messages sent.
    pub estimated_tokens_after: usize,
    /// The summary of the compacted history, if any.
    pub working_memory: Option<String>,
}

/// `res` is the context built under a window of `max_context_tokens` for the prompt `sp` and
/// the history `hv`: everything when the estimate is within 80 % of the window, else the most
/// recent messages that fit (at least one) after a summary of the dropped ones.
pub open spec fn build_matches(
    max_context_tokens: usize,
    sp: Seq<char>,
    hv: Seq<MessageView>,
    res: ContextBuildResult,
) -> bool {
    let budget = budget_of(max_context_tokens);
    let kept = kept_count(hv, budget, est(sp) as int, 0);
    let dropped = hv.len() - kept;
    let kept_msgs = hv.subrange(dropped, hv.len() as int);
    let summary = summary_text(hv.take(dropped));
    &&& res.estimated_tokens_before == estimate_total(sp, hv)
    &&& res.estimated_tokens_before <= budget ==> {
        &&& !res.compacted
        &&& res.working_memory is None
        &&& res.estimated_tokens_after == res.estimated_tokens_before
        &&& messages_view(res.messages@) == seq![system_view(sp)] + hv
    }
    &&& res.estimated_tokens_before > budget ==> {
        &&& res.compacted
        &&& dropped > 0 ==> opt_view(res.working_memory) == Some(summary)
        &&& dropped > 0 ==> messages_view(res.messages@) == seq![
            system_view(sp),
            system_view(summary),
        ] + kept_msgs
        &&& dropped > 0 ==> res.estimated_tokens_after == est(sp) + est(summary) + tokens_sum(
            kept_msgs,
        )
        &&& dropped == 0 ==> res.working_memory is None
        &&& dropped == 0 ==> messages_view(res.messages@) == seq![system_view(sp)] + hv
        &&& dropped == 0 ==> res.estimated_tokens_after == est(sp) + tokens_sum(hv)
    }
}

/// Builds contexts within a window of `max_context_tokens`.
pub struct ConversationContextBuilder {
    max_context_tokens: usize,
}

proof fn lemma_sum_concat(a: Seq<MessageView>, b: Seq<MessageView>)
    ensures
        tokens_sum(a + b) == tokens_sum(a) + tokens_sum(b),
    decreases a.len(),
{
    if a.len() == 0 {
        assert(a + b =~= b);
    } else {
        lemma_sum_concat(a.drop_first(), b);
        assert((a + b).drop_first() =~= a.drop_first() + b);
    }
}

proof fn lemma_sum_single(m: MessageView)
    ensures
        tokens_sum(seq![m]) == est(m.content),
{
    assert(seq![m].drop_first() =~= Seq::<MessageView>::empty());
    assert(seq![m][0] == m);
    assert(tokens_sum(Seq::<MessageView>::empty()) == 0);
    reveal_with_fuel(tokens_sum, 2);
}

proof fn lemma_prefix_step(h: Seq<MessageView>, i: int)
    requires
        0 <= i < h.len(),
    ensures
        tokens_sum(h.take(i + 1)) == tokens_sum(h.take(i)) + est(h[i].content),
{
    assert(h.take(i + 1) =~= h.take(i) + seq![h[i]]);
    lemma_sum_concat(h.take(i), seq![h[i]]);
    lemma_sum_single(h[i]);
}

proof fn lemma_suffix_step(h: Seq<MessageView>, c: int)
    requires
        0 <= c < h.len(),
    ensures
        suffix_tokens(h, c + 1) == suffix_tokens(h, c) + est(h[h.len() - 1 - c].content),
{
    let a = h.subrange(h.len() - c - 1, h.len() - c);
    let b = h.subrange(h.len() - c, h.len() as int);
    assert(h.subrange(h.len() - (c + 1), h.len() as int) =~= a + b);
    assert(a =~= seq![h[h.len() - 1 - c]]);
    lemma_sum_concat(a, b);
    lemma_sum_single(h[h.len() - 1 - c]);
}

proof fn lemma_prefix_le(h: Seq<MessageView>, i: int)
    requires
        0 <= i <= h.len(),
    ensures
        tokens_sum(h.take(i)) <= tokens_sum(h),
{
    assert(h =~= h.take(i) + h.subrange(i, h.len() as int));
    lemma_sum_concat(h.take(i), h.subrange(i, h.len() as int));
}

proof fn lemma_suffix_le(h: Seq<MessageView>, c: int)
    requires
        0 <= c <= h.len(),
    ensures
        suffix_tokens(h, c) <= tokens_sum(h),
{
    assert(h =~= h.take(h.len() - c) + h.subrange(h.len() - c, h.len() as int));
    lemma_sum_concat(h.take(h.len() - c), h.subrange(h.len() - c, h.len() as int));
}

proof fn lemma_sum_at_least_len(h: Seq<MessageView>)
    ensures
        tokens_sum(h) >= h.len(),
    decreases h.len(),
{
    if h.len() > 0 {
        lemma_sum_at_least_len(h.drop_first());
    }
}

proof fn lemma_kept_bounds(h: Seq<MessageView>, budget: int, base: int, c: nat)
    requires
        c <= h.len(),
    ensures
        c <= kept_count(h, budget, base, c) <= h.len(),
        h.len() > 0 ==> kept_count(h, budget, base, c) >= 1,
    decreases h.len() - c,
{
    if c < h.len() {
        if !(base + suffix_tokens(h, c as int) + est(h[h.len() - 1 - c].content) > budget
            && c > 0) {
            lemma_kept_bounds(h, budget, base, c + 1);
        }
    }
}

proof fn lemma_views_concat(a: Seq<Message>, prefix: Seq<MessageView>, b: Seq<Message>)
    requires
        a.len() == prefix.len() + b.len(),
        forall|i: int| 0 <= i < prefix.len() ==> (#[trigger] a[i])@ == prefix[i],
        forall|t: int| 0 <= t < b.len() ==> a[prefix.len() + t]@ == (#[trigger] b[t])@,
    ensures
        messages_view(a) == prefix + messages_view(b),
{
    assert forall|i: int| 0 <= i < a.len() implies #[trigger] messages_view(a)[i] == (prefix
        + messages_view(b))[i] by {
        if i >= prefix.len() {
            let t = i - prefix.len();
            assert(b[t] == b[t]);
            assert(a[prefix.len() + t] == a[i]);
        } else {
            assert(a[i] == a[i]);
        }
    }
    assert(messages_view(a) =~= prefix + messages_view(b));
}

proof fn lemma_line_len(m: MessageView)
    ensures
        summary_line(m).len() <= 96,
{
    reveal_strlit("- ");
    reveal_strlit(": ");
    reveal_strlit("...");
    reveal_strlit("System");
    reveal_strlit("User");
    reveal_strlit("Assistant");
    reveal_strlit("Tool");
}

proof fn lemma_body_len(h: Seq<MessageView>)
    ensures
        summary_body(h).len() <= 97 * h.len(),
    decreases h.len(),
{
    if h.len() == 1 {
        lemma_line_len(h[0]);
    } else if h.len() > 1 {
        lemma_body_len(h.drop_last());
        lemma_line_len(h.last());
        reveal_strlit("\n");
    }
}

/// Estimated tokens of a text: half its characters plus one.
pub fn estimate_tokens(content: &str) -> (res: usize)
    ensures
        res == est(content@),
{
    char_count(content) / 2 + 1
}

/// One line of the summary of a dropped message.
fn render_summary_line(message: &Message) -> (res: Vec<char>)
    ensures
        res@ == summary_line(message@),
{
    let mut v: Vec<char> = Vec::new();
    v.push('-');
    v.push(' ');
    extend_str(&mut v, message.role.label());
    v.push(':');
    v.push(' ');
    let short = truncate_ellipsis(message.content.as_str(), 80);
    extend_str(&mut v, short.as_str());
    proof {
        reveal_strlit("- ");
        reveal_strlit(": ");
    }
    assert(v@ =~= summary_line(message@));
    v
}

/// The summary of the first `dropped` messages of the history.
fn render_summary(history: &Vec<Message>, dropped: usize) -> (res: String)
    requires
        1 <= dropped <= history.len(),
    ensures
        res@ == summary_text(messages_view(history@).take(dropped as int)),
{
    let mut body: Vec<char> = Vec::new();
    let mut i: usize = 0;
    while i < dropped
        invariant
            i <= dropped <= history.len(),
            body@ == summary_body(messages_view(history@).take(i as int)),
        decreases dropped - i,
    {
        let line = render_summary_line(&history[i]);
        let ghost before = body@;
        if i > 0 {
            body.push('\n');
        }
        proof {
            reveal_strlit("\n");
            assert(line@.take(0) =~= Seq::<char>::empty());
        }
        let mut k: usize = 0;
        while k < line.len()
            invariant
                k <= line.len(),
                body@ == (if i > 0 { before + "\n"@ } else { before }) + line@.take(k as int),
            decreases line.len() - k,
        {
            body.push(line[k]);
            k += 1;
            assert(line@.take(k as int) =~= line@.take(k - 1).push(line@[k - 1]));
        }
        assert(line@.take(line.len() as int) =~= line@);
        proof {
            let t = messages_view(history@).take(i + 1);
            assert(t.drop_last() =~= messages_view(history@).take(i as int));
            assert(t.last() == history@[i as int]@);
            if i == 0 {
                assert(t.len() == 1);
                assert(t[0] == history@[0]@);
                assert(before =~= Seq::<char>::empty());
            }
        }
        i += 1;
    }
    let mut text = to_chars("历史摘要（自动压缩）：\n");
    let ghost heading = text@;
    proof {
        reveal_strlit("历史摘要（自动压缩）：\n");
    }
    let mut k: usize = 0;
    while k < body.len()
        invariant
            k <= body.len(),
            text@ == heading + body@.take(k as int),
        decreases body.len() - k,
    {
        text.push(body[k]);
        k += 1;
        assert(body@.take(k as int) =~= body@.take(k - 1).push(body@[k - 1]));
    }
    assert(body@.take(body.len() as int) =~= body@);
    from_chars(&text)
}

impl ConversationContextBuilder {
    /// A builder for a window of `max_context_tokens` tokens.
    pub fn new(max_context_tokens: usize) -> (res: ConversationContextBuilder)
        ensures
            res.max_context_tokens() == max_context_tokens,
    {
        ConversationContextBuilder { max_context_tokens }
    }

    /// The window size.
    pub closed spec fn max_context_tokens(&self) -> usize {
        self.max_context_tokens
    }

    /// The messages for the model: the system prompt and the history. When the estimate
    /// exceeds 80 % of the window, only the most recent messages that fit are kept (at least
    /// one), and the dropped ones are replaced by a summary message.
    pub fn build(&self, system_prompt: &str, history: &Vec<Message>) -> (res: ContextBuildResult)
        requires
            context_fits(system_prompt@, messages_view(history@)),
        ensures
            build_matches(self.max_context_tokens(), system_prompt@, messages_view(history@), res),
    {
        let n = history.len();
        let ghost hv = messages_view(history@);
        let prompt_tokens = estimate_tokens(system_prompt);
        let mut before: usize = prompt_tokens;
        let mut i: usize = 0;
        while i < n
            invariant
                n == history.len(),
                hv == messages_view(history@),
                i <= n,
                context_fits(system_prompt@, hv),
                prompt_tokens == est(system_prompt@),
                before == prompt_tokens + tokens_sum(hv.take(i as int)),
            decreases n - i,
        {
            proof {
                lemma_prefix_step(hv, i as int);
                lemma_prefix_le(hv, i + 1);
            }
            before = before + estimate_tokens(history[i].content.as_str());
            i += 1;
        }
        assert(hv.take(n as int) =~= hv);
        let scaled = if self.max_context_tokens <= usize::MAX / 8 {
            self.max_context_tokens * 8
        } else {
            usize::MAX
        };
        let budget = scaled / 10;
        assert(budget == budget_of(self.max_context_tokens));

        let mut messages: Vec<Message> = Vec::new();
        messages.push(Message::system(owned(system_prompt)));

        if before <= budget {
            let mut j: usize = 0;
            while j < n
                invariant
                    n == history.len(),
                    j <= n,
                    messages@.len() == j + 1,
                    messages@[0]@ == system_view(system_prompt@),
                    forall|t: int| 0 <= t < j ==> (#[trigger] messages@[t + 1])@ == history@[t]@,
                decreases n - j,
            {
                messages.push(history[j].clone());
                j += 1;
            }
            proof {
                assert forall|t: int| 0 <= t < history@.len() implies messages@[1 + t]@ == (
                #[trigger] history@[t])@ by {
                    assert(messages@[t + 1] == messages@[1 + t]);
                }
                lemma_views_concat(messages@, seq![system_view(system_prompt@)], history@);
            }
            return ContextBuildResult {
                messages,
                compacted: false,
                estimated_tokens_before: before,
                estimated_tokens_after: before,
                working_memory: None,
            };
        }

        let ghost base = est(system_prompt@) as int;
        let mut kept: usize = 0;
        let mut used: usize = prompt_tokens;
        while kept < n
            invariant
                n == history.len(),
                hv == messages_view(history@),
                kept <= n,
                context_fits(system_prompt@, hv),
                prompt_tokens == est(system_prompt@),
                base == prompt_tokens,
                budget == budget_of(self.max_context_tokens),
                used == prompt_tokens + suffix_tokens(hv, kept as int),
                kept_count(hv, budget as int, base, 0) == kept_count(
                    hv,
                    budget as int,
                    base,
                    kept as nat,
                ),
            ensures
                kept <= n,
                used == prompt_tokens + suffix_tokens(hv, kept as int),
                kept_count(hv, budget as int, base, 0) == kept,
            decreases n - kept,
        {
            proof {
                lemma_suffix_step(hv, kept as int);
                lemma_suffix_le(hv, kept + 1);
            }
            let tokens = estimate_tokens(history[n - 1 - kept].content.as_str());
            if used + tokens > budget && kept > 0 {
                break;
            }
            used = used + tokens;
            kept += 1;
        }
        proof {
            lemma_kept_bounds(hv, budget as int, base, 0);
            lemma_suffix_le(hv, kept as int);
            lemma_sum_at_least_len(hv);
        }
        assert(kept == kept_count(hv, budget as int, base, 0));
        let dropped = n - kept;
        let mut summary: Option<String> = None;
        let mut summary_tokens: usize = 0;
        if dropped > 0 {
            let text = render_summary(history, dropped);
            proof {
                lemma_body_len(hv.take(dropped as int));
                reveal_strlit("历史摘要（自动压缩）：\n");
            }
            summary_tokens = estimate_tokens(text.as_str());
            messages.push(Message::system(clone_string(&text)));
            summary = Some(text);
        }
        let first_kept = messages.len();
        let mut j: usize = dropped;
        while j < n
            invariant
                n == history.len(),
                hv == messages_view(history@),
                dropped <= j <= n,
                first_kept == messages@.len() - (j - dropped),
                first_kept == (if dropped > 0 { 2usize } else { 1usize }),
                messages@[0]@ == system_view(system_prompt@),
                summary matches Some(text) ==> messages@[1]@ == system_view(text@),
                dropped > 0 <==> summary is Some,
                forall|t: int|
                    dropped <= t < j ==> (#[trigger] messages@[first_kept + t - dropped])@
                        == history@[t]@,
            decreases n - j,
        {
            messages.push(history[j].clone());
            j += 1;
        }
        let after = prompt_tokens + summary_tokens + (used - prompt_tokens);
        assert(history@.subrange(0, n as int) =~= history@);
        proof {
            let kept_msgs = history@.subrange(dropped as int, n as int);
            assert(messages_view(kept_msgs) =~= hv.subrange(dropped as int, n as int));
            assert forall|t: int| 0 <= t < kept_msgs.len() implies messages@[first_kept + t]@ == (
            #[trigger] kept_msgs[t])@ by {
                assert(messages@[first_kept + (t + dropped) - dropped] == messages@[first_kept
                    + t]);
                assert(history@[t + dropped] == kept_msgs[t]);
            }
            if dropped > 0 {
                let text = summary->0;
                lemma_views_concat(
                    messages@,
                    seq![system_view(system_prompt@), system_view(text@)],
                    kept_msgs,
                );
            } else {
                assert(kept_msgs =~= history@);
                lemma_views_concat(messages@, seq![system_view(system_prompt@)], kept_msgs);
            }
        }
        ContextBuildResult {
            messages,
            compacted: true,
            estimated_tokens_before: before,
            estimated_tokens_after: after,
            working_memory: summary,
        }
    }
}

/// Whether the prompt and history are small enough for the token arithmetic (see
/// `context_fits`).
pub fn context_fits_check(system_prompt: &str, history: &Vec<Message>) -> (res: bool)
    ensures
        res == context_fits(system_prompt@, messages_view(history@)),
{
    let ghost hv = messages_view(history@);
    let n = history.len();
    let mut total: usize = estimate_tokens(system_prompt);
    let mut i: usize = 0;
    while i < n
        invariant
            n == history.len(),
            hv == messages_view(history@),
            i <= n,
            total == est(system_prompt@) + tokens_sum(hv.take(i as int)),
        decreases n - i,
    {
        proof {
            lemma_prefix_step(hv, i as int);
        }
        let t = estimate_tokens(history[i].content.as_str());
        if total > usize::MAX - t {
            proof {
                lemma_prefix_le(hv, i + 1);
            }
            return false;
        }
        total = total + t;
        i += 1;
    }
    assert(hv.take(n as int) =~= hv);
    if total > usize::MAX - 100 {
        return false;
    }
    let room: usize = (usize::MAX - 100 - total) / 100;
    proof {
        let r = usize::MAX - 100 - total;
        assert(n <= room <==> 100 * n <= r) by (nonlinear_arith)
            requires
                room == r / 100,
                r >= 0,
                n >= 0,
        ;
    }
    n <= room
}

/// Copies a string.
pub fn clone_string(s: &String) -> (res: String)
    ensures
        res == *s,
{
    s.clone()
}

} // verus!
