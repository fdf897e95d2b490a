//! What the built-in tools decide around their file, process and network work: text edits,
//! git command lines, searches with a limit, required fields, occurrence counts, and how a
//! stored tool result is asked for.

use vstd::prelude::*;

use crate::mcp::{trim_end_slashes, trim_slashes};
use crate::text::{
    ascii_lower, char_slice, concat2, contains_seq, contains_str, decimal, decimal_text,
    extend_chars, extend_str, find_str, from_chars, has_prefix, index_of, lemma_found_at,
    match_at, occurs_at, owned, slice_by_chars, starts_with_str, str_eq, sub_vec, to_chars,
    texts, to_ascii_lowercase, lines_of, text_lines, lemma_text_before_asymmetric,
    lemma_text_before_transitive, str_before, text_before,
};
use crate::tools::{extract_keyword_context, keyword_context};

verus! {

/// `s` with the first occurrence of `p` replaced by `r` (std's `str::replacen` with a count of
/// one); `s` itself when `p` does not occur.
pub open spec fn replace_first(s: Seq<char>, p: Seq<char>, r: Seq<char>) -> Seq<char> {
    match index_of(s, p) {
        Some(i) => s.take(i) + r + s.skip(i + p.len()),
        None => s,
    }
}

/// What an edit of `original` gives: an error for an empty `old_text` (named after `tool`) or
/// one that does not occur (naming `path`); else the text with the first occurrence, or every
/// occurrence, of `old_text` replaced by `new_text`.
pub open spec fn edit_outcome(
    original: Seq<char>,
    old_text: Seq<char>,
    new_text: Seq<char>,
    every: bool,
    tool: Seq<char>,
    path: Seq<char>,
) -> Result<Seq<char>, Seq<char>> {
    if old_text.len() == 0 {
        Err(tool + " 的 old_text 不能为空"@)
    } else if !contains_seq(original, old_text) {
        Err("未在目标文件中找到待替换内容："@ + path)
    } else if every {
        Ok(crate::text::replace_all(original, old_text, new_text))
    } else {
        Ok(replace_first(original, old_text, new_text))
    }
}

/// Replaces the first occurrence of `p` in `s` by `r`.
pub fn replace_first_str(s: &str, p: &str, r: &str) -> (res: String)
    ensures
        res@ == replace_first(s@, p@, r@),
{
    match find_str(s, p) {
        None => owned(s),
        Some(i) => {
            proof {
                lemma_found_at(s@, p@, 0, i as int);
            }
            let sv = to_chars(s);
            let pn = crate::text::char_count(p);
            let n = sv.len();
            assert(i + pn <= n);
            let after: usize = i + pn;
            let mut out = sub_vec(&sv, 0, i);
            extend_str(&mut out, r);
            let tail = sub_vec(&sv, after, n);
            extend_chars(&mut out, &tail);
            assert(out@ =~= s@.take(i as int) + r@ + s@.skip(i + p@.len()));
            from_chars(&out)
        },
    }
}

/// Applies an edit to the text of a file (see `edit_outcome`).
pub fn apply_text_edit(
    original: &str,
    old_text: &str,
    new_text: &str,
    every: bool,
    tool: &str,
    path: &str,
) -> (res: Result<String, String>)
    ensures
        match edit_outcome(original@, old_text@, new_text@, every, tool@, path@) {
            Ok(t) => res matches Ok(r) && r@ == t,
            Err(e) => res matches Err(m) && m@ == e,
        },
{
    if crate::text::char_count(old_text) == 0 {
        return Err(concat2(tool, " 的 old_text 不能为空"));
    }
    if !contains_str(original, old_text) {
        return Err(concat2("未在目标文件中找到待替换内容：", path));
    }
    if every {
        Ok(crate::text::replace_str(original, old_text, new_text))
    } else {
        Ok(replace_first_str(original, old_text, new_text))
    }
}

/// Whether `text` contains `query`, ignoring ASCII case.
pub open spec fn query_matches(text: Seq<char>, query: Seq<char>) -> bool {
    contains_seq(ascii_lower(text), ascii_lower(query))
}

/// The positions, among the first `n` texts, of those that match `query`, in order.
pub open spec fn matching_positions(texts: Seq<Seq<char>>, query: Seq<char>, n: int) -> Seq<int>
    decreases n,
{
    if n <= 0 {
        Seq::empty()
    } else if query_matches(texts[n - 1], query) {
        matching_positions(texts, query, n - 1).push(n - 1)
    } else {
        matching_positions(texts, query, n - 1)
    }
}

/// `s` cut to at most `limit` items.
pub open spec fn at_most(s: Seq<int>, limit: int) -> Seq<int> {
    if s.len() <= limit {
        s
    } else {
        s.take(limit)
    }
}

/// Whether `text` contains `query`, ignoring ASCII case.
pub fn text_matches(text: &str, query: &str) -> (res: bool)
    ensures
        res == query_matches(text@, query@),
{
    let t = to_ascii_lowercase(text);
    let q = to_ascii_lowercase(query);
    contains_str(t.as_str(), q.as_str())
}

/// The positions of the first `limit` texts that contain `query`, ignoring ASCII case.
pub fn select_matching(items: &Vec<String>, query: &str, limit: usize) -> (res: Vec<usize>)
    ensures
        res@.map_values(|i: usize| i as int) == at_most(
            matching_positions(texts(items@), query@, items@.len() as int),
            limit as int,
        ),
{
    let mut out: Vec<usize> = Vec::new();
    let mut i: usize = 0;
    while i < items.len()
        invariant
            i <= items@.len(),
            out@.map_values(|j: usize| j as int) == at_most(
                matching_positions(texts(items@), query@, i as int),
                limit as int,
            ),
        decreases items.len() - i,
    {
        let ghost before = matching_positions(texts(items@), query@, i as int);
        let hit = text_matches(items[i].as_str(), query);
        assert(texts(items@)[i as int] == items@[i as int]@);
        if hit && out.len() < limit {
            let ghost old_out = out@;
            assert(old_out.map_values(|j: usize| j as int) == before);
            out.push(i);
            assert(out@ == old_out.push(i));
            assert(out@.map_values(|j: usize| j as int) =~= old_out.map_values(|j: usize| j as int).push(i as int));
        } else if hit {
            let ghost after = before.push(i as int);
            assert(at_most(after, limit as int) =~= at_most(before, limit as int));
        }
        i += 1;
    }
    out
}

/// The required fields that are not among the present ones, in order.
pub open spec fn absent_fields(required: Seq<Seq<char>>, present: Seq<Seq<char>>) -> Seq<
    Seq<char>,
>
    decreases required.len(),
{
    if required.len() == 0 {
        Seq::empty()
    } else if present.contains(required.last()) {
        absent_fields(required.drop_last(), present)
    } else {
        absent_fields(required.drop_last(), present).push(required.last())
    }
}

fn contains_text(items: &Vec<String>, s: &str) -> (res: bool)
    ensures
        res == texts(items@).contains(s@),
{
    let mut i: usize = 0;
    while i < items.len()
        invariant
            i <= items@.len(),
            forall|j: int| 0 <= j < i ==> items@[j]@ != s@,
        decreases items.len() - i,
    {
        if crate::text::str_eq(items[i].as_str(), s) {
            assert(texts(items@)[i as int] == s@);
            return true;
        }
        i += 1;
    }
    assert forall|j: int| 0 <= j < texts(items@).len() implies #[trigger] texts(
        items@,
    )[j] != s@ by {
        assert(items@[j]@ != s@);
    }
    false
}

/// The fields of `required` that are not in `present` (the keys with a value that is not
/// null), in order.
pub fn missing_fields(required: &Vec<String>, present: &Vec<String>) -> (res: Vec<String>)
    ensures
        texts(res@) == absent_fields(texts(required@), texts(present@)),
{
    let mut out: Vec<String> = Vec::new();
    let mut i: usize = 0;
    while i < required.len()
        invariant
            i <= required@.len(),
            texts(out@) == absent_fields(texts(required@).take(i as int), texts(present@)),
        decreases required.len() - i,
    {
        let ghost pre = texts(required@).take(i as int);
        let ghost next = texts(required@).take(i + 1);
        assert(next.drop_last() =~= pre);
        assert(next.last() == required@[i as int]@);
        if !contains_text(present, required[i].as_str()) {
            out.push(required[i].clone());
            assert(texts(out@) =~= absent_fields(pre, texts(present@)).push(
                required@[i as int]@,
            ));
        }
        i += 1;
    }
    assert(texts(required@).take(required@.len() as int) =~= texts(required@));
    out
}

/// The address of a GitHub API endpoint: the base without trailing slashes, then the
/// endpoint with a leading slash.
pub open spec fn github_url_of(base_url: Seq<char>, endpoint: Seq<char>) -> Seq<char> {
    trim_slashes(base_url) + if has_prefix(endpoint, "/"@) {
        endpoint
    } else {
        "/"@ + endpoint
    }
}

/// The address of a GitHub API endpoint (see `github_url_of`).
pub fn github_url(base_url: &str, endpoint: &str) -> (res: String)
    ensures
        res@ == github_url_of(base_url@, endpoint@),
{
    let base = trim_end_slashes(base_url);
    if starts_with_str(endpoint, "/") {
        concat2(base.as_str(), endpoint)
    } else {
        let mut v = to_chars(base.as_str());
        extend_str(&mut v, "/");
        extend_str(&mut v, endpoint);
        proof {
            assert(v@ =~= trim_slashes(base_url@) + ("/"@ + endpoint@));
        }
        from_chars(&v)
    }
}

/// The line range option of `git blame`: both ends, or the start twice, or nothing.
pub open spec fn blame_range(start_line: Option<usize>, end_line: Option<usize>) -> Seq<char> {
    match (start_line, end_line) {
        (Some(s), Some(e)) => "-L "@ + decimal(s as nat) + ","@ + decimal(e as nat) + " "@,
        (Some(s), None) => "-L "@ + decimal(s as nat) + ","@ + decimal(s as nat) + " "@,
        _ => Seq::empty(),
    }
}

/// The `git blame` command line for a file and an optional line range.
pub fn blame_command(path: &str, start_line: Option<usize>, end_line: Option<usize>) -> (res:
    String)
    ensures
        res@ == "git blame "@ + blame_range(start_line, end_line) + "-- "@ + path@,
{
    let mut v = to_chars("git blame ");
    let ghost head = v@;
    match start_line {
        Some(s) => {
            let last = match end_line {
                Some(e) => e,
                None => s,
            };
            let a = decimal_text(s as u64);
            let b = decimal_text(last as u64);
            extend_str(&mut v, "-L ");
            extend_str(&mut v, a.as_str());
            extend_str(&mut v, ",");
            extend_str(&mut v, b.as_str());
            extend_str(&mut v, " ");
            assert(v@ =~= head + blame_range(start_line, end_line));
        },
        None => {
            assert(v@ =~= head + blame_range(start_line, end_line));
        },
    }
    extend_str(&mut v, "-- ");
    extend_str(&mut v, path);
    from_chars(&v)
}

/// The `git log` command line for the last `limit` commits, one line each.
pub fn log_command(limit: usize) -> (res: String)
    ensures
        res@ == "git log -n "@ + decimal(limit as nat) + " --oneline"@,
{
    let d = decimal_text(limit as u64);
    let mut v = to_chars("git log -n ");
    extend_str(&mut v, d.as_str());
    extend_str(&mut v, " --oneline");
    from_chars(&v)
}

/// The `git diff` command line, against a revision when one is given.
pub fn diff_command(revision: Option<&str>) -> (res: String)
    ensures
        res@ == match revision {
            Some(r) => "git diff "@ + r@,
            None => "git diff"@,
        },
{
    match revision {
        Some(r) => concat2("git diff ", r),
        None => owned("git diff"),
    }
}

/// The `git show --stat` command line for an object.
pub fn show_command(object: &str) -> (res: String)
    ensures
        res@ == "git show --stat "@ + object@,
{
    concat2("git show --stat ", object)
}

/// The number of non-overlapping occurrences of `p` in `s` found from position `k` on,
/// scanning from the left; none for an empty `p`.
pub open spec fn occurrences_from(s: Seq<char>, p: Seq<char>, k: int) -> nat
    decreases s.len() + 1 - k,
{
    if p.len() == 0 || k < 0 || k + p.len() > s.len() {
        0
    } else if occurs_at(s, p, k) {
        1 + occurrences_from(s, p, k + p.len())
    } else {
        occurrences_from(s, p, k + 1)
    }
}

/// How many times std's `str::matches` finds `p` in `s`: the non-overlapping occurrences
/// from the left, or one more than the characters of `s` for an empty `p`.
pub open spec fn occurrences(s: Seq<char>, p: Seq<char>) -> nat {
    if p.len() == 0 {
        s.len() + 1
    } else {
        occurrences_from(s, p, 0)
    }
}

/// How many times `pattern` occurs in `text` (see `occurrences`).
pub fn count_occurrences(text: &str, pattern: &str) -> (res: usize)
    requires
        text@.len() < usize::MAX,
    ensures
        res == occurrences(text@, pattern@),
{
    let s = to_chars(text);
    let p = to_chars(pattern);
    if p.len() == 0 {
        return s.len() + 1;
    }
    let mut count: usize = 0;
    let mut i: usize = 0;
    while i <= s.len() && p.len() <= s.len() - i
        invariant
            s@ == text@,
            p@ == pattern@,
            p@.len() > 0,
            i <= s@.len() + 1,
            count <= i,
            count + occurrences_from(s@, p@, i as int) == occurrences_from(s@, p@, 0),
        decreases s.len() + 1 - i,
    {
        if match_at(&s, &p, i) {
            count = count + 1;
            i = i + p.len();
        } else {
            i = i + 1;
        }
    }
    count
}

/// How a stored tool result is asked for.
#[derive(Debug)]
pub enum RetrieveRequest {
    /// Its summary.
    Summary,
    /// The start of its output.
    Head,
    /// The end of its output.
    Tail,
    /// Its whole output.
    Body,
    /// Some characters of its output.
    Slice { start: usize, length: usize },
    /// The text around a keyword in its output.
    Keyword { keyword: String, context: usize },
}

/// The mode of a `retrieve_tool_result` call: `body` when none is given.
pub open spec fn mode_or_body(mode: Option<Seq<char>>) -> Seq<char> {
    match mode {
        Some(m) => m,
        None => "body"@,
    }
}

/// Why the arguments of `retrieve_tool_result` make no request, if they do not: an unknown
/// mode, a slice without a length, or a keyword request without a keyword that is not empty.
pub open spec fn retrieve_problem(
    mode: Seq<char>,
    length_chars: Option<usize>,
    keyword: Option<Seq<char>>,
) -> Option<Seq<char>> {
    if mode == "summary"@ || mode == "head"@ || mode == "tail"@ || mode == "body"@ {
        None
    } else if mode == "slice"@ {
        if length_chars is None {
            Some("retrieve_tool_result 在 slice 模式下缺少 length_chars"@)
        } else {
            None
        }
    } else if mode == "keyword_context"@ {
        match keyword {
            Some(k) => if k.len() > 0 {
                None
            } else {
                Some("retrieve_tool_result 在 keyword_context 模式下缺少 keyword"@)
            },
            None => Some("retrieve_tool_result 在 keyword_context 模式下缺少 keyword"@),
        }
    } else {
        Some("retrieve_tool_result 不支持的 mode："@ + mode)
    }
}

/// The request that the arguments of `retrieve_tool_result` make (see `retrieve_problem`): a
/// slice starts at 0 by default; a keyword request keeps 80 characters around the keyword by
/// default.
pub fn parse_retrieve_request(
    mode: Option<&str>,
    start_char: Option<usize>,
    length_chars: Option<usize>,
    keyword: Option<String>,
    context_chars: Option<usize>,
) -> (res: Result<RetrieveRequest, String>)
    ensures
        ({
            let m = mode_or_body(
                match mode {
                    Some(x) => Some(x@),
                    None => None,
                },
            );
            let kw = match keyword {
                Some(k) => Some(k@),
                None => None,
            };
            match retrieve_problem(m, length_chars, kw) {
                Some(e) => res matches Err(msg) && msg@ == e,
                None => res matches Ok(r) && {
                    &&& m == "summary"@ ==> r is Summary
                    &&& m == "head"@ ==> r is Head
                    &&& m == "tail"@ ==> r is Tail
                    &&& m == "body"@ ==> r is Body
                    &&& m == "slice"@ ==> (r matches RetrieveRequest::Slice { start, length }
                        && start == (match start_char {
                        Some(x) => x,
                        None => 0,
                    }) && length_chars == Some(length))
                    &&& m == "keyword_context"@ ==> (r matches RetrieveRequest::Keyword {
                        keyword: k,
                        context,
                    } && kw == Some(k@) && context == (match context_chars {
                        Some(x) => x,
                        None => 80,
                    }))
                },
            }
        }),
{
    proof {
        reveal_strlit("body");
        reveal_strlit("summary");
        reveal_strlit("head");
        reveal_strlit("tail");
        reveal_strlit("slice");
        reveal_strlit("keyword_context");
        assert("summary"@.len() == 7 && "head"@.len() == 4 && "tail"@.len() == 4);
        assert("body"@.len() == 4 && "slice"@.len() == 5 && "keyword_context"@.len() == 15);
        assert("head"@[0] != "tail"@[0] && "head"@[0] != "body"@[0] && "tail"@[0] != "body"@[0]);
    }
    let m = match mode {
        Some(x) => x,
        None => "body",
    };
    if str_eq(m, "summary") {
        return Ok(RetrieveRequest::Summary);
    }
    if str_eq(m, "head") {
        return Ok(RetrieveRequest::Head);
    }
    if str_eq(m, "tail") {
        return Ok(RetrieveRequest::Tail);
    }
    if str_eq(m, "body") {
        return Ok(RetrieveRequest::Body);
    }
    if str_eq(m, "slice") {
        return match length_chars {
            None => Err(owned("retrieve_tool_result 在 slice 模式下缺少 length_chars")),
            Some(n) => Ok(
                RetrieveRequest::Slice {
                    start: match start_char {
                        Some(x) => x,
                        None => 0,
                    },
                    length: n,
                },
            ),
        };
    }
    if str_eq(m, "keyword_context") {
        return match keyword {
            Some(k) => {
                if crate::text::char_count(k.as_str()) > 0 {
                    Ok(
                        RetrieveRequest::Keyword {
                            keyword: k,
                            context: match context_chars {
                                Some(x) => x,
                                None => 80,
                            },
                        },
                    )
                } else {
                    Err(owned("retrieve_tool_result 在 keyword_context 模式下缺少 keyword"))
                }
            },
            None => Err(owned("retrieve_tool_result 在 keyword_context 模式下缺少 keyword")),
        };
    }
    Err(concat2("retrieve_tool_result 不支持的 mode：", m))
}

/// Whether a request reads the stored output.
pub open spec fn reads_body(r: RetrieveRequest) -> bool {
    r is Body || r is Slice || r is Keyword
}

/// Whether the request reads the stored output.
pub fn needs_body(request: &RetrieveRequest) -> (res: bool)
    ensures
        res == reads_body(*request),
{
    match request {
        RetrieveRequest::Body | RetrieveRequest::Slice { .. } | RetrieveRequest::Keyword {
            ..
        } => true,
        _ => false,
    }
}

/// The answer to a request, from the result's summary, the start and end of its output, and
/// its output (read only when the request needs it): the keyword request fails when the
/// keyword does not occur.
pub fn answer_retrieve(
    request: &RetrieveRequest,
    summary: &str,
    head: &str,
    tail: &str,
    body: &str,
) -> (res: Result<String, String>)
    ensures
        match *request {
            RetrieveRequest::Summary => res matches Ok(t) && t@ == summary@,
            RetrieveRequest::Head => res matches Ok(t) && t@ == head@,
            RetrieveRequest::Tail => res matches Ok(t) && t@ == tail@,
            RetrieveRequest::Body => res matches Ok(t) && t@ == body@,
            RetrieveRequest::Slice { start, length } => res matches Ok(t) && t@ == char_slice(
                body@,
                start as int,
                length as int,
            ),
            RetrieveRequest::Keyword { keyword, context } => match keyword_context(
                body@,
                keyword@,
                context as int,
            ) {
                Some(x) => res matches Ok(t) && t@ == x,
                None => res matches Err(m) && m@ == "未在工具结果中找到关键字："@ + keyword@,
            },
        },
{
    match request {
        RetrieveRequest::Summary => Ok(owned(summary)),
        RetrieveRequest::Head => Ok(owned(head)),
        RetrieveRequest::Tail => Ok(owned(tail)),
        RetrieveRequest::Body => Ok(owned(body)),
        RetrieveRequest::Slice { start, length } => Ok(slice_by_chars(body, *start, *length)),
        RetrieveRequest::Keyword { keyword, context } => {
            match extract_keyword_context(body, keyword.as_str(), *context) {
                Some(t) => Ok(t),
                None => Err(concat2("未在工具结果中找到关键字：", keyword.as_str())),
            }
        },
    }
}

/// What a `handle_read` handle names.
#[derive(Debug)]
pub enum HandleTarget {
    /// The result of a tool call, by its identifier.
    ToolCall(String),
    /// A file, by its path.
    File(String),
}

/// The target of a handle: `tool:` then a call identifier, or `file:` then a path; any other
/// handle is refused.
pub fn parse_handle(handle: &str) -> (res: Result<HandleTarget, String>)
    ensures
        has_prefix(handle@, "tool:"@) ==> (res matches Ok(HandleTarget::ToolCall(id)) && id@
            == handle@.skip(5)),
        !has_prefix(handle@, "tool:"@) && has_prefix(handle@, "file:"@) ==> (res matches Ok(
            HandleTarget::File(p),
        ) && p@ == handle@.skip(5)),
        !has_prefix(handle@, "tool:"@) && !has_prefix(handle@, "file:"@) ==> (res matches Err(m)
            && m@ == "handle_read 仅支持 tool: 或 file: 句柄："@ + handle@),
{
    proof {
        reveal_strlit("tool:");
        reveal_strlit("file:");
    }
    let v = to_chars(handle);
    if starts_with_str(handle, "tool:") {
        let rest = sub_vec(&v, 5, v.len());
        assert(rest@ =~= handle@.skip(5));
        return Ok(HandleTarget::ToolCall(from_chars(&rest)));
    }
    if starts_with_str(handle, "file:") {
        let rest = sub_vec(&v, 5, v.len());
        assert(rest@ =~= handle@.skip(5));
        return Ok(HandleTarget::File(from_chars(&rest)));
    }
    Err(concat2("handle_read 仅支持 tool: 或 file: 句柄：", handle))
}


/// The error text with which the `regex` crate refuses `pattern` (`Regex::new`), or `None`
/// when it compiles.
pub uninterp spec fn regex_error_of(pattern: Seq<char>) -> Option<Seq<char>>;

/// Whether `text` holds a match of `pattern` (`Regex::is_match`).
pub uninterp spec fn regex_finds(pattern: Seq<char>, text: Seq<char>) -> bool;

/// `regex::Regex::new` of `pattern`: the text of its error, or `None` when it compiles.
#[verifier::external_body]
fn regex_error(pattern: &str) -> (res: Option<String>)
    ensures
        match regex_error_of(pattern@) {
            None => res is None,
            Some(e) => res matches Some(m) && m@ == e,
        },
{
    match regex::Regex::new(pattern) {
        Ok(_) => None,
        Err(e) => Some(e.to_string()),
    }
}

/// `regex::Regex::is_match` of a compiled `pattern` on each of `lines`, in order.
#[verifier::external_body]
fn regex_line_flags(pattern: &str, lines: &Vec<String>) -> (res: Vec<bool>)
    requires
        regex_error_of(pattern@) is None,
    ensures
        res@.len() == lines@.len(),
        forall|i: int| 0 <= i < lines@.len() ==> res@[i] == regex_finds(pattern@, #[trigger] lines@[i]@),
{
    let mut out: Vec<bool> = Vec::new();
    if let Ok(re) = regex::Regex::new(pattern) {
        for line in lines.iter() {
            out.push(re.is_match(line));
        }
    }
    out
}

/// The message with which `grep_files` refuses a pattern that does not compile.
pub fn grep_pattern_problem(pattern: &str) -> (res: Option<String>)
    ensures
        match regex_error_of(pattern@) {
            None => res is None,
            Some(e) => res matches Some(m) && m@ == "grep_files 正则非法："@ + e,
        },
{
    match regex_error(pattern) {
        None => None,
        Some(e) => Some(concat2("grep_files 正则非法：", e.as_str())),
    }
}

/// A line of a file that matches a pattern.
#[derive(Debug)]
pub struct GrepMatch {
    /// The file.
    pub path: String,
    /// The line's number, from one.
    pub line_no: usize,
    /// The line.
    pub line: String,
}

/// The matches found in one file, and whether the search is full after them.
#[derive(Debug)]
pub struct GrepOutcome {
    /// The matching lines, in order.
    pub matches: Vec<GrepMatch>,
    /// No more files are to be searched.
    pub full: bool,
}

/// The positions of the lines among the first `j` of `lines` that match `pattern`, in order.
pub open spec fn line_hits(pattern: Seq<char>, lines: Seq<Seq<char>>, j: int) -> Seq<int>
    decreases j,
{
    if j <= 0 {
        Seq::empty()
    } else if regex_finds(pattern, lines[j - 1]) {
        line_hits(pattern, lines, j - 1).push(j - 1)
    } else {
        line_hits(pattern, lines, j - 1)
    }
}

/// How many more matches a file may add when `found` were found before under `limit`: the
/// rest of the limit, or one when none is left (a search stops after the match that reaches
/// its limit, so a limit of zero still gives one).
pub open spec fn grep_room(found: int, limit: int) -> int {
    if limit > found {
        limit - found
    } else {
        1
    }
}

/// The positions among the first `j` flags that are set, in order.
pub open spec fn flag_hits(flags: Seq<bool>, j: int) -> Seq<int>
    decreases j,
{
    if j <= 0 {
        Seq::empty()
    } else if flags[j - 1] {
        flag_hits(flags, j - 1).push(j - 1)
    } else {
        flag_hits(flags, j - 1)
    }
}

proof fn lemma_flag_hits(flags: Seq<bool>, j: int)
    requires
        0 <= j,
    ensures
        forall|k: int| 0 <= k < flag_hits(flags, j).len() ==> 0 <= #[trigger] flag_hits(flags, j)[k] < j,
    decreases j,
{
    if j > 0 {
        lemma_flag_hits(flags, j - 1);
        let h = flag_hits(flags, j - 1);
        if flags[j - 1] {
            assert forall|k: int| 0 <= k < h.push(j - 1).len() implies 0 <= #[trigger] h.push(
                j - 1,
            )[k] < j by {
                if k < h.len() {
                    assert(h.push(j - 1)[k] == h[k]);
                }
            }
        }
    }
}

/// The lines that match, found by flags that say of each line whether it matches.
proof fn lemma_line_hits_flags(pattern: Seq<char>, lines: Seq<Seq<char>>, flags: Seq<bool>, j: int)
    requires
        0 <= j <= lines.len(),
        flags.len() == lines.len(),
        forall|i: int| 0 <= i < lines.len() ==> flags[i] == regex_finds(pattern, #[trigger] lines[i]),
    ensures
        line_hits(pattern, lines, j) == flag_hits(flags, j),
    decreases j,
{
    if j > 0 {
        lemma_line_hits_flags(pattern, lines, flags, j - 1);
    }
}

/// The lines flagged in `flags` (one flag for each of `lines`, of a file at `path`), after
/// `found` matches in earlier files under `limit`: the first `grep_room(found, limit)` of
/// them, numbered from one; the search is full when it got any and reached the limit.
pub fn grep_flagged(path: &str, lines: &Vec<String>, flags: &Vec<bool>, found: usize, limit: usize) -> (res:
    GrepOutcome)
    requires
        flags@.len() == lines@.len(),
    ensures
        ({
            let hits = flag_hits(flags@, lines@.len() as int);
            let room = grep_room(found as int, limit as int);
            let n = if hits.len() < room {
                hits.len() as int
            } else {
                room
            };
            &&& res.matches@.len() == n
            &&& forall|k: int|
                0 <= k < n ==> {
                    &&& (#[trigger] res.matches@[k]).path@ == path@
                    &&& res.matches@[k].line_no == hits[k] + 1
                    &&& res.matches@[k].line@ == lines@[hits[k]]@
                }
            &&& res.full == (n > 0 && found + n >= limit)
        }),
{
    let room: usize = if limit > found {
        limit - found
    } else {
        1
    };
    let mut out: Vec<GrepMatch> = Vec::new();
    let mut j: usize = 0;
    while j < lines.len()
        invariant
            j <= lines@.len(),
            flags@.len() == lines@.len(),
            room as int == grep_room(found as int, limit as int),
            room >= 1,
            out@.len() == (if flag_hits(flags@, j as int).len() < room {
                flag_hits(flags@, j as int).len() as int
            } else {
                room as int
            }),
            forall|k: int|
                0 <= k < out@.len() ==> {
                    &&& (#[trigger] out@[k]).path@ == path@
                    &&& out@[k].line_no == flag_hits(flags@, j as int)[k] + 1
                    &&& out@[k].line@ == lines@[flag_hits(flags@, j as int)[k]]@
                },
        decreases lines@.len() - j,
    {
        proof {
            lemma_flag_hits(flags@, j as int);
        }
        if flags[j] && out.len() < room {
            out.push(GrepMatch { path: owned(path), line_no: j + 1, line: lines[j].clone() });
        }
        j += 1;
    }
    let n = out.len();
    let full = n > 0 && (found >= limit || n >= limit - found);
    GrepOutcome { matches: out, full }
}

/// The lines of `content` (a file at `path`) that match `pattern`, after `found` matches in
/// earlier files under `limit`: the first `grep_room(found, limit)` of them, numbered from
/// one; the search is full when it got any and reached the limit.
pub fn grep_content(path: &str, content: &str, pattern: &str, found: usize, limit: usize) -> (res:
    GrepOutcome)
    requires
        regex_error_of(pattern@) is None,
    ensures
        ({
            let lines = text_lines(content@);
            let hits = line_hits(pattern@, lines, lines.len() as int);
            let room = grep_room(found as int, limit as int);
            let n = if hits.len() < room {
                hits.len() as int
            } else {
                room
            };
            &&& res.matches@.len() == n
            &&& forall|k: int|
                0 <= k < n ==> {
                    &&& (#[trigger] res.matches@[k]).path@ == path@
                    &&& res.matches@[k].line_no == hits[k] + 1
                    &&& res.matches@[k].line@ == lines[hits[k]]
                }
            &&& res.full == (n > 0 && found + n >= limit)
        }),
{
    let lines = lines_of(content);
    let flags = regex_line_flags(pattern, &lines);
    proof {
        let ls = texts(lines@);
        assert forall|i: int| 0 <= i < ls.len() implies flags@[i] == regex_finds(
            pattern@,
            #[trigger] ls[i],
        ) by {
            assert(ls[i] == lines@[i]@);
        }
        lemma_line_hits_flags(pattern@, ls, flags@, ls.len() as int);
        lemma_flag_hits(flags@, ls.len() as int);
    }
    let res = grep_flagged(path, &lines, &flags, found, limit);
    proof {
        let ls = texts(lines@);
        let hits = flag_hits(flags@, lines@.len() as int);
        assert forall|k: int| 0 <= k < hits.len() implies ls[#[trigger] hits[k]] == lines@[hits[k]]@ by {}
    }
    res
}

/// `grep_content` after the pattern's check: the refusal of `grep_pattern_problem` when the
/// pattern does not compile.
pub fn grep_file(path: &str, content: &str, pattern: &str, found: usize, limit: usize) -> (res:
    Result<GrepOutcome, String>)
    ensures
        match regex_error_of(pattern@) {
            Some(e) => res matches Err(m) && m@ == "grep_files 正则非法："@ + e,
            None => res matches Ok(o) && ({
                let lines = text_lines(content@);
                let hits = line_hits(pattern@, lines, lines.len() as int);
                let room = grep_room(found as int, limit as int);
                let n = if hits.len() < room {
                    hits.len() as int
                } else {
                    room
                };
                &&& o.matches@.len() == n
                &&& forall|k: int|
                    0 <= k < n ==> {
                        &&& (#[trigger] o.matches@[k]).path@ == path@
                        &&& o.matches@[k].line_no == hits[k] + 1
                        &&& o.matches@[k].line@ == lines[hits[k]]
                    }
                &&& o.full == (n > 0 && found + n >= limit)
            }),
        },
{
    match grep_pattern_problem(pattern) {
        Some(m) => Err(m),
        None => Ok(grep_content(path, content, pattern, found, limit)),
    }
}


/// An entry of a directory listing.
#[derive(Debug)]
pub struct DirEntry {
    /// The file's name.
    pub name: String,
    /// Its path.
    pub path: String,
    /// Whether it is a directory.
    pub is_dir: bool,
}

/// Whether `list_dir` lists an entry named `name`: hidden entries (named with a leading `.`)
/// only when asked for.
pub fn is_listed(name: &str, include_hidden: bool) -> (res: bool)
    ensures
        res == (include_hidden || !(name@.len() > 0 && name@[0] == '.')),
{
    let hidden = starts_with_str(name, ".");
    proof {
        reveal_strlit(".");
        assert("."@.len() == 1 && "."@[0] == '.');
        if name@.len() > 0 && name@[0] == '.' {
            assert(name@.take(1) =~= "."@);
        }
        if hidden {
            assert(name@.take(1)[0] == name@[0]);
        }
    }
    include_hidden || !hidden
}

/// The entries named `n`, in their order in `s`.
pub open spec fn entries_named(s: Seq<DirEntry>, n: Seq<char>) -> Seq<DirEntry>
    decreases s.len(),
{
    if s.len() == 0 {
        Seq::empty()
    } else if s.last().name@ == n {
        entries_named(s.drop_last(), n).push(s.last())
    } else {
        entries_named(s.drop_last(), n)
    }
}

/// No entry comes after one whose name comes after its own.
pub open spec fn entries_sorted_by_name(s: Seq<DirEntry>) -> bool {
    forall|i: int, j: int| 0 <= i < j < s.len() ==> !text_before(#[trigger] s[j].name@, #[trigger] s[i].name@)
}

/// Inserting at `p` an entry whose name no later entry has adds it at the end of the
/// entries of its name and changes no others.
proof fn lemma_entries_named_insert(s: Seq<DirEntry>, p: int, x: DirEntry, n: Seq<char>)
    requires
        0 <= p <= s.len(),
        forall|k: int| p <= k < s.len() ==> (#[trigger] s[k]).name@ != x.name@,
    ensures
        entries_named(s.insert(p, x), n) == if n == x.name@ {
            entries_named(s, n).push(x)
        } else {
            entries_named(s, n)
        },
    decreases s.len(),
{
    if p == s.len() {
        assert(s.insert(p, x) =~= s.push(x));
        assert(s.push(x).drop_last() =~= s);
    } else {
        let r = s.drop_last();
        let t = s.insert(p, x);
        assert(t.drop_last() =~= r.insert(p, x));
        assert(t.last() == s.last());
        assert forall|k: int| p <= k < r.len() implies (#[trigger] r[k]).name@ != x.name@ by {
            assert(r[k] == s[k]);
        }
        lemma_entries_named_insert(r, p, x, n);
        assert(s[s.len() - 1] == s.last());
    }
}

/// The entries ordered by name, as `sort_by` on the names orders them: a permutation of
/// `entries`, sorted by name, in which entries of one name keep their order.
pub fn sort_entries_by_name(entries: Vec<DirEntry>) -> (res: Vec<DirEntry>)
    ensures
        res@.to_multiset() == entries@.to_multiset(),
        entries_sorted_by_name(res@),
        forall|n: Seq<char>| #[trigger] entries_named(res@, n) == entries_named(entries@, n),
{
    broadcast use vstd::seq_lib::group_to_multiset_ensures;
    let ghost orig = entries@;
    let mut rest = entries;
    let mut out: Vec<DirEntry> = Vec::new();
    let ghost mut k: int = 0;
    assert(orig.take(0) =~= Seq::<DirEntry>::empty());
    while rest.len() > 0
        invariant
            0 <= k <= orig.len(),
            rest@ == orig.skip(k),
            out@.to_multiset() == orig.take(k).to_multiset(),
            entries_sorted_by_name(out@),
            forall|n: Seq<char>| #[trigger] entries_named(out@, n) == entries_named(orig.take(k), n),
        decreases rest@.len(),
    {
        let x = rest.remove(0);
        let mut p: usize = 0;
        while p < out.len() && !str_before(x.name.as_str(), out[p].name.as_str())
            invariant
                p <= out@.len(),
                forall|i: int| 0 <= i < p ==> !text_before(x.name@, #[trigger] out@[i].name@),
            decreases out@.len() - p,
        {
            p += 1;
        }
        let ghost old_out = out@;
        out.insert(p, x);
        proof {
            let t = out@;
            assert(x == orig[k]);
            assert(orig.take(k + 1) =~= orig.take(k).push(x));
            assert(rest@ =~= orig.skip(k + 1));
            assert(t.remove(p as int) =~= old_out);
            assert(t[p as int] == x);
            assert(t.contains(x));
            t.to_multiset_ensures();
            old_out.to_multiset_ensures();
            assert(t.to_multiset().count(x) > 0);
            assert(t.to_multiset().remove(x).insert(x) =~= t.to_multiset());
            assert(t.to_multiset() =~= old_out.to_multiset().insert(x));
            orig.take(k).to_multiset_ensures();
            assert(orig.take(k + 1).to_multiset() =~= orig.take(k).to_multiset().insert(x));
            assert forall|q: int| p <= q < old_out.len() implies (#[trigger] old_out[q]).name@
                != x.name@ by {
                if old_out[q].name@ == x.name@ {
                    lemma_text_before_asymmetric(x.name@, x.name@, 0);
                    if q > p {
                        assert(!text_before(old_out[q].name@, old_out[p as int].name@));
                    }
                }
            }
            assert forall|n: Seq<char>| #[trigger] entries_named(t, n) == entries_named(
                orig.take(k + 1),
                n,
            ) by {
                lemma_entries_named_insert(old_out, p as int, x, n);
                assert(orig.take(k + 1).drop_last() =~= orig.take(k));
                assert(orig.take(k + 1).last() == x);
            }
            assert forall|i: int, j: int| 0 <= i < j < t.len() implies !text_before(
                #[trigger] t[j].name@,
                #[trigger] t[i].name@,
            ) by {
                if j == p {
                    assert(t[i] == old_out[i]);
                } else if i == p {
                    assert(t[j] == old_out[j - 1]);
                    if text_before(old_out[j - 1].name@, x.name@) {
                        lemma_text_before_transitive(
                            old_out[j - 1].name@,
                            x.name@,
                            old_out[p as int].name@,
                            0,
                        );
                        lemma_text_before_asymmetric(
                            old_out[p as int].name@,
                            old_out[p as int].name@,
                            0,
                        );
                    }
                } else {
                    let oi = if i < p { i } else { i - 1 };
                    let oj = if j < p { j } else { j - 1 };
                    assert(t[i] == old_out[oi]);
                    assert(t[j] == old_out[oj]);
                }
            }
            k = k + 1;
        }
    }
    proof {
        assert(orig.take(k) =~= orig);
    }
    out
}

} // verus!
