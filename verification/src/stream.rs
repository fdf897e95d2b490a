//! A streamed model answer: the server-sent event lines it arrives in, and how its text,
//! reasoning, token counts and tool-call fragments add up to a `ModelResponse`.

use vstd::prelude::*;

use crate::domain::{AssistantToolCall, ToolFunctionCall};
use crate::text::{
    char_count, extend_str, find_chars_from, from_chars, has_prefix, index_of, lemma_found_at,
    owned, str_eq, sub_vec, to_chars, trim_str, trimmed,
};
use crate::turn::ModelResponse;

verus! {

/// The complete lines of `s` (each ended by a line feed, which is dropped) and what follows
/// the last line feed.
pub open spec fn split_complete(s: Seq<char>) -> (Seq<Seq<char>>, Seq<char>)
    decreases s.len(),
{
    match index_of(s, seq!['\n']) {
        None => (Seq::empty(), s),
        Some(i) => {
            proof {
                crate::text::lemma_find_from_bounds(s, seq!['\n'], 0);
            }
            let rest = split_complete(s.skip(i + 1));
            (seq![s.take(i)] + rest.0, rest.1)
        },
    }
}

/// `s` without every leading repetition of `p` (std's `str::trim_start_matches`).
pub open spec fn strip_all_prefix(s: Seq<char>, p: Seq<char>) -> Seq<char>
    decreases s.len(),
{
    if p.len() > 0 && has_prefix(s, p) {
        strip_all_prefix(s.skip(p.len() as int), p)
    } else {
        s
    }
}

/// The payload of an event-stream line: after trimming it must start with `data:`; the rest,
/// without further `data:` prefixes and trimmed, counts unless it is empty or `[DONE]`.
pub open spec fn sse_payload_of(line: Seq<char>) -> Option<Seq<char>> {
    let t = trimmed(line);
    if !has_prefix(t, "data:"@) {
        None
    } else {
        let p = trimmed(strip_all_prefix(t, "data:"@));
        if p.len() == 0 || p == "[DONE]"@ {
            None
        } else {
            Some(p)
        }
    }
}

/// `s` without every leading `p`.
fn strip_prefixes(s: &str, p: &str) -> (res: String)
    requires
        p@.len() > 0,
    ensures
        res@ == strip_all_prefix(s@, p@),
{
    let v = to_chars(s);
    let pv = to_chars(p);
    let mut i: usize = 0;
    assert(v@.skip(0) =~= v@);
    while pv.len() <= v.len() - i && crate::text::match_at(&v, &pv, i)
        invariant
            i <= v@.len(),
            pv@ == p@,
            pv@.len() > 0,
            strip_all_prefix(s@, p@) == strip_all_prefix(v@.skip(i as int), p@),
            v@ == s@,
        decreases v.len() - i,
    {
        proof {
            assert(v@.skip(i as int).take(pv@.len() as int) =~= v@.subrange(
                i as int,
                i + pv@.len(),
            ));
            assert(v@.skip(i as int).skip(pv@.len() as int) =~= v@.skip(i + pv@.len()));
        }
        i = i + pv.len();
    }
    proof {
        if pv@.len() <= v@.len() - i {
            assert(v@.skip(i as int).take(pv@.len() as int) =~= v@.subrange(
                i as int,
                i + pv@.len(),
            ));
        }
    }
    let out = sub_vec(&v, i, v.len());
    assert(out@ =~= v@.skip(i as int));
    from_chars(&out)
}

/// The payload of an event-stream line (see `sse_payload_of`).
pub fn sse_payload(line: &str) -> (res: Option<String>)
    ensures
        match sse_payload_of(line@) {
            Some(p) => res matches Some(r) && r@ == p,
            None => res is None,
        },
{
    proof {
        reveal_strlit("data:");
    }
    let t = trim_str(line);
    if !crate::text::starts_with_str(t.as_str(), "data:") {
        return None;
    }
    let stripped = strip_prefixes(t.as_str(), "data:");
    let p = trim_str(stripped.as_str());
    if char_count(p.as_str()) == 0 || str_eq(p.as_str(), "[DONE]") {
        None
    } else {
        Some(p)
    }
}

/// The fragments of one tool call.
#[derive(Debug)]
pub struct ToolCallAccumulator {
    /// Position of the call in the answer.
    pub index: usize,
    /// Identifier.
    pub id: String,
    /// Kind.
    pub kind: String,
    /// Function name so far.
    pub name: String,
    /// Arguments so far.
    pub arguments: String,
}

/// A fragment of a tool call in one event.
#[derive(Debug)]
pub struct ToolCallDelta {
    /// Position of the call, when given.
    pub index: Option<usize>,
    /// Identifier, when given.
    pub id: Option<String>,
    /// Kind, when given.
    pub kind: Option<String>,
    /// More of the function name.
    pub name: Option<String>,
    /// More of the arguments.
    pub arguments: Option<String>,
}

/// What an answer has added up to so far.
#[derive(Debug)]
pub struct StreamAccumulator {
    /// Text.
    pub(crate) content: String,
    /// Reasoning text.
    pub(crate) reasoning: String,
    /// Input tokens reported.
    pub(crate) prompt_tokens: usize,
    /// Output tokens reported.
    pub(crate) completion_tokens: usize,
    /// The tool calls, by increasing position.
    pub(crate) calls: Vec<ToolCallAccumulator>,
    /// Received text not yet ending a line.
    pub(crate) buffer: String,
}

/// The calls are ordered by strictly increasing position.
pub open spec fn calls_sorted(calls: Seq<ToolCallAccumulator>) -> bool {
    forall|a: int, b: int| 0 <= a < b < calls.len() ==> calls[a].index < calls[b].index
}

/// What an accumulator holds: its texts, counts, calls and unfinished line.
pub struct StreamView {
    /// Text.
    pub content: Seq<char>,
    /// Reasoning text.
    pub reasoning: Seq<char>,
    /// Input tokens reported.
    pub prompt_tokens: usize,
    /// Output tokens reported.
    pub completion_tokens: usize,
    /// The tool calls, by increasing position.
    pub calls: Seq<ToolCallAccumulator>,
    /// Received text not yet ending a line.
    pub buffer: Seq<char>,
}

impl View for StreamAccumulator {
    type V = StreamView;

    closed spec fn view(&self) -> StreamView {
        StreamView {
            content: self.content@,
            reasoning: self.reasoning@,
            prompt_tokens: self.prompt_tokens,
            completion_tokens: self.completion_tokens,
            calls: self.calls@,
            buffer: self.buffer@,
        }
    }
}

impl StreamAccumulator {
    /// An accumulator keeps its calls ordered by position.
    #[verifier::type_invariant]
    spec fn calls_in_order(self) -> bool {
        calls_sorted(self.calls@)
    }
}

/// A call after a fragment: a new identifier or kind replaces the old, name and arguments grow.
pub open spec fn call_updated(c: ToolCallAccumulator, d: ToolCallDelta) -> (Seq<char>, Seq<char>, Seq<char>, Seq<char>) {
    (
        match d.id {
            Some(v) => v@,
            None => c.id@,
        },
        match d.kind {
            Some(v) => v@,
            None => c.kind@,
        },
        c.name@ + match d.name {
            Some(v) => v@,
            None => Seq::empty(),
        },
        c.arguments@ + match d.arguments {
            Some(v) => v@,
            None => Seq::empty(),
        },
    )
}

/// The texts of a call.
pub open spec fn call_texts(c: ToolCallAccumulator) -> (Seq<char>, Seq<char>, Seq<char>, Seq<char>) {
    (c.id@, c.kind@, c.name@, c.arguments@)
}

/// The number of calls placed before position `key`.
pub open spec fn calls_before(calls: Seq<ToolCallAccumulator>, key: usize) -> int
    decreases calls.len(),
{
    if calls.len() == 0 {
        0
    } else if calls.last().index < key {
        calls_before(calls.drop_last(), key) + 1
    } else {
        calls_before(calls.drop_last(), key)
    }
}

/// The call a tool-call answer stands for, with `function` as the kind when none was given.
pub open spec fn finished_call(c: ToolCallAccumulator) -> AssistantToolCall {
    AssistantToolCall {
        id: c.id,
        kind: c.kind,
        function: ToolFunctionCall { name: c.name, arguments: c.arguments },
    }
}

impl StreamAccumulator {
    /// Nothing received yet.
    pub fn new() -> (res: StreamAccumulator)
        ensures
            res@.content.len() == 0,
            res@.reasoning.len() == 0,
            res@.prompt_tokens == 0,
            res@.completion_tokens == 0,
            res@.calls.len() == 0,
            res@.buffer.len() == 0,
    {
        proof {
            reveal_strlit("");
        }
        StreamAccumulator {
            content: owned(""),
            reasoning: owned(""),
            prompt_tokens: 0,
            completion_tokens: 0,
            calls: Vec::new(),
            buffer: owned(""),
        }
    }

    /// The received text that does not yet end a line.
    pub fn buffer(&self) -> (res: &str)
        ensures
            res@ == self@.buffer,
    {
        self.buffer.as_str()
    }

    /// Takes in received text and hands out the lines it completes; the rest waits in the
    /// buffer.
    pub fn take_lines(&mut self, text: &str) -> (res: Vec<String>)
        ensures
            crate::text::texts(res@) == split_complete(old(self)@.buffer + text@).0,
            final(self)@.buffer == split_complete(old(self)@.buffer + text@).1,
            final(self)@.content == old(self)@.content,
            final(self)@.reasoning == old(self)@.reasoning,
            final(self)@.prompt_tokens == old(self)@.prompt_tokens,
            final(self)@.completion_tokens == old(self)@.completion_tokens,
            final(self)@.calls == old(self)@.calls,
    {
        let mut v = to_chars(self.buffer.as_str());
        extend_str(&mut v, text);
        let ghost full = v@;
        let nl: Vec<char> = vec!['\n'];
        let mut out: Vec<String> = Vec::new();
        let mut pos: usize = 0;
        assert(full.skip(0) =~= full);
        loop
            invariant
                pos <= v@.len(),
                v@ == full,
                full == old(self)@.buffer + text@,
                *self == *old(self),
                nl@ == seq!['\n'],
                crate::text::texts(out@) + split_complete(full.skip(pos as int)).0 == split_complete(
                    full,
                ).0,
                split_complete(full.skip(pos as int)).1 == split_complete(full).1,
            decreases v.len() - pos,
        {
            let ghost rest = full.skip(pos as int);
            proof {
                crate::text::lemma_find_from_skip(full, nl@, pos as int, pos as int);
                crate::text::lemma_find_from_bounds(full, nl@, pos as int);
            }
            match find_chars_from(&v, &nl, pos) {
                None => {
                    let remainder = from_chars(&sub_vec(&v, pos, v.len()));
                    assert(remainder@ =~= rest);
                    assert(crate::text::texts(out@) + Seq::<Seq<char>>::empty() =~= crate::text::texts(
                        out@,
                    ));
                    proof {
                        use_type_invariant(&*self);
                    }
                    self.buffer = remainder;
                    return out;
                },
                Some(i) => {
                    let line = from_chars(&sub_vec(&v, pos, i));
                    let ghost before = crate::text::texts(out@);
                    proof {
                        assert(line@ =~= rest.take(i - pos));
                        assert(rest.skip(i - pos + 1) =~= full.skip(i + 1));
                    }
                    out.push(line);
                    proof {
                        assert(crate::text::texts(out@) =~= before.push(rest.take(i - pos)));
                        assert(before + (seq![rest.take(i - pos)] + split_complete(
                            full.skip(i + 1),
                        ).0) =~= crate::text::texts(out@) + split_complete(full.skip(i + 1)).0);
                    }
                    pos = i + 1;
                },
            }
        }
    }

    /// Records reported token counts; an absent count keeps the last one.
    pub fn apply_usage(&mut self, prompt_tokens: Option<usize>, completion_tokens: Option<usize>)
        ensures
            final(self)@.prompt_tokens == match prompt_tokens {
                Some(n) => n,
                None => old(self)@.prompt_tokens,
            },
            final(self)@.completion_tokens == match completion_tokens {
                Some(n) => n,
                None => old(self)@.completion_tokens,
            },
            final(self)@.content == old(self)@.content,
            final(self)@.reasoning == old(self)@.reasoning,
            final(self)@.calls == old(self)@.calls,
            final(self)@.buffer == old(self)@.buffer,
    {
        proof {
            use_type_invariant(&*self);
        }
        if let Some(n) = prompt_tokens {
            self.prompt_tokens = n;
        }
        if let Some(n) = completion_tokens {
            self.completion_tokens = n;
        }
    }

    /// Appends a fragment of text and of reasoning.
    pub fn apply_text(&mut self, content: Option<&str>, reasoning: Option<&str>)
        ensures
            final(self)@.content == old(self)@.content + match content {
                Some(t) => t@,
                None => Seq::empty(),
            },
            final(self)@.reasoning == old(self)@.reasoning + match reasoning {
                Some(t) => t@,
                None => Seq::empty(),
            },
            final(self)@.prompt_tokens == old(self)@.prompt_tokens,
            final(self)@.completion_tokens == old(self)@.completion_tokens,
            final(self)@.calls == old(self)@.calls,
            final(self)@.buffer == old(self)@.buffer,
    {
        proof {
            use_type_invariant(&*self);
        }
        if let Some(t) = content {
            self.content = crate::text::concat2(self.content.as_str(), t);
        } else {
            assert(self.content@ + Seq::<char>::empty() =~= self.content@);
        }
        if let Some(t) = reasoning {
            self.reasoning = crate::text::concat2(self.reasoning.as_str(), t);
        } else {
            assert(self.reasoning@ + Seq::<char>::empty() =~= self.reasoning@);
        }
    }

    /// Adds a tool-call fragment to the call at its position (by default the next new
    /// position): an existing call is updated, else a new one is placed in order.
    pub fn apply_tool_delta(&mut self, delta: ToolCallDelta)
        ensures
            final(self)@.content == old(self)@.content,
            final(self)@.reasoning == old(self)@.reasoning,
            final(self)@.prompt_tokens == old(self)@.prompt_tokens,
            final(self)@.completion_tokens == old(self)@.completion_tokens,
            final(self)@.buffer == old(self)@.buffer,
            ({
                let key = match delta.index {
                    Some(k) => k,
                    None => old(self)@.calls.len() as usize,
                };
                let p = calls_before(old(self)@.calls, key);
                let found = p < old(self)@.calls.len() && old(self)@.calls[p].index == key;
                &&& found ==> final(self)@.calls.len() == old(self)@.calls.len()
                &&& found ==> forall|j: int|
                    0 <= j < old(self)@.calls.len() && j != p ==> final(self)@.calls[j] == old(self)@.calls[j]
                &&& found ==> final(self)@.calls[p].index == key && call_texts(
                    final(self)@.calls[p],
                ) == call_updated(old(self)@.calls[p], delta)
                &&& !found ==> final(self)@.calls.len() == old(self)@.calls.len() + 1
                &&& !found ==> forall|j: int|
                    0 <= j < p ==> final(self)@.calls[j] == old(self)@.calls[j]
                &&& !found ==> forall|j: int|
                    p < j < final(self)@.calls.len() ==> final(self)@.calls[j] == old(self)@.calls[j - 1]
                &&& !found ==> final(self)@.calls[p].index == key && call_texts(
                    final(self)@.calls[p],
                ) == (
                    match delta.id {
                        Some(v) => v@,
                        None => Seq::<char>::empty(),
                    },
                    match delta.kind {
                        Some(v) => v@,
                        None => Seq::<char>::empty(),
                    },
                    match delta.name {
                        Some(v) => v@,
                        None => Seq::<char>::empty(),
                    },
                    match delta.arguments {
                        Some(v) => v@,
                        None => Seq::<char>::empty(),
                    },
                )
            }),
    {
        proof {
            use_type_invariant(&*self);
        }
        let mut calls: Vec<ToolCallAccumulator> = Vec::new();
        std::mem::swap(&mut calls, &mut self.calls);
        let key = match delta.index {
            Some(k) => k,
            None => calls.len(),
        };
        let ghost old_calls = calls@;
        let mut p: usize = 0;
        while p < calls.len() && calls[p].index < key
            invariant
                p <= calls@.len(),
                calls@ == old_calls,
                calls_sorted(old_calls),
                forall|j: int| 0 <= j < p ==> old_calls[j].index < key,
            decreases calls.len() - p,
        {
            p += 1;
        }
        proof {
            lemma_calls_before(old_calls, key, p as int);
        }
        let found = p < calls.len() && calls[p].index == key;
        proof {
            reveal_strlit("");
        }
        let mut call = if found {
            let c = &calls[p];
            ToolCallAccumulator {
                index: c.index,
                id: c.id.clone(),
                kind: c.kind.clone(),
                name: c.name.clone(),
                arguments: c.arguments.clone(),
            }
        } else {
            ToolCallAccumulator {
                index: key,
                id: owned(""),
                kind: owned(""),
                name: owned(""),
                arguments: owned(""),
            }
        };
        let ghost base = call;
        if let Some(v) = delta.id {
            call.id = v;
        }
        if let Some(v) = delta.kind {
            call.kind = v;
        }
        match delta.name {
            Some(v) => {
                call.name = crate::text::concat2(call.name.as_str(), v.as_str());
            },
            None => {
                assert(call.name@ + Seq::<char>::empty() =~= call.name@);
            },
        }
        match delta.arguments {
            Some(v) => {
                call.arguments = crate::text::concat2(call.arguments.as_str(), v.as_str());
            },
            None => {
                assert(call.arguments@ + Seq::<char>::empty() =~= call.arguments@);
            },
        }
        if found {
            calls.set(p, call);
        } else {
            calls.insert(p, call);
            proof {
                assert forall|a: int, b: int|
                    0 <= a < b < calls@.len() implies calls@[a].index < calls@[b].index by {
                    if b == p as int {
                        assert(old_calls[a].index < key);
                    } else if a == p as int {
                        assert(old_calls[b - 1].index >= key);
                        assert(old_calls[b - 1].index != key);
                    } else {
                    }
                }
            }
        }
        self.calls = calls;
    }

    /// The answer that the stream added up to: its text, its reasoning when there was any,
    /// its tool calls in order (with `function` as the kind when none was given) and its
    /// token counts.
    pub fn finish(self) -> (res: ModelResponse)
        ensures
            res.content@ == self@.content,
            self@.reasoning.len() == 0 ==> res.reasoning_content is None,
            self@.reasoning.len() > 0 ==> (res.reasoning_content matches Some(r) && r@
                == self@.reasoning),
            res.tool_calls@.len() == self@.calls.len(),
            forall|i: int|
                0 <= i < self@.calls.len() ==> {
                    let c = #[trigger] self@.calls[i];
                    let t = res.tool_calls@[i];
                    &&& t.id == c.id
                    &&& t.kind@ == (if c.kind@.len() == 0 {
                        "function"@
                    } else {
                        c.kind@
                    })
                    &&& t.function.name == c.name
                    &&& t.function.arguments == c.arguments
                },
            res.input_tokens == self@.prompt_tokens,
            res.output_tokens == self@.completion_tokens,
            !res.stream_fallback,
    {
        let mut calls: Vec<AssistantToolCall> = Vec::new();
        let mut i: usize = 0;
        while i < self.calls.len()
            invariant
                i <= self.calls@.len(),
                calls@.len() == i,
                forall|j: int|
                    0 <= j < i ==> {
                        let c = #[trigger] self.calls@[j];
                        let t = calls@[j];
                        &&& t.id == c.id
                        &&& t.kind@ == (if c.kind@.len() == 0 {
                            "function"@
                        } else {
                            c.kind@
                        })
                        &&& t.function.name == c.name
                        &&& t.function.arguments == c.arguments
                    },
            decreases self.calls.len() - i,
        {
            let c = &self.calls[i];
            let kind = if char_count(c.kind.as_str()) == 0 {
                owned("function")
            } else {
                c.kind.clone()
            };
            calls.push(
                AssistantToolCall {
                    id: c.id.clone(),
                    kind,
                    function: ToolFunctionCall { name: c.name.clone(), arguments: c.arguments.clone() },
                },
            );
            i += 1;
        }
        let reasoning = if char_count(self.reasoning.as_str()) == 0 {
            None
        } else {
            Some(self.reasoning)
        };
        ModelResponse {
            content: self.content,
            reasoning_content: reasoning,
            tool_calls: calls,
            input_tokens: self.prompt_tokens,
            output_tokens: self.completion_tokens,
            stream_fallback: false,
        }
    }
}

proof fn lemma_calls_before(calls: Seq<ToolCallAccumulator>, key: usize, p: int)
    requires
        calls_sorted(calls),
        0 <= p <= calls.len(),
        forall|j: int| 0 <= j < p ==> calls[j].index < key,
        p < calls.len() ==> calls[p].index >= key,
    ensures
        calls_before(calls, key) == p,
    decreases calls.len(),
{
    if calls.len() > 0 {
        let n = calls.len() - 1;
        if p == calls.len() {
            lemma_calls_before(calls.drop_last(), key, p - 1);
        } else {
            assert(calls.last().index >= key) by {
                if n > p {
                    assert(calls[p].index < calls[n].index);
                }
            }
            lemma_calls_before(calls.drop_last(), key, p);
        }
    }
}

} // verus!
