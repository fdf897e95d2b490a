//! The built-in tools, and the parts of their work that are computation: names of records,
//! keyword context, process output, line ranges and user questions.

use vstd::prelude::*;

use crate::text::{
    char_count, concat2, concat3, decimal, decimal_text, extend_chars, extend_str, from_chars,
    index_of, lemma_found_at, find_chars_from, lines_of, owned, sub_vec, text_lines, texts, to_chars,
    trim_str, trimmed,
};

verus! {

/// Reads a UTF-8 text file.
#[derive(Debug, Clone, Copy)]
pub struct ReadFileTool;

/// Writes a file whole or replaces a range of its lines.
#[derive(Debug, Clone, Copy)]
pub struct WriteFileTool;

/// Runs a shell command.
#[derive(Debug, Clone, Copy)]
pub struct RunShellTool;

/// Starts a persistent interactive process.
#[derive(Debug, Clone, Copy)]
pub struct RlmOpenTool;

/// Sends a command to a persistent process and reads its output.
#[derive(Debug, Clone, Copy)]
pub struct RlmEvalTool;

/// Changes the working directory of a persistent process.
#[derive(Debug, Clone, Copy)]
pub struct RlmConfigureTool;

/// Closes a persistent process.
#[derive(Debug, Clone, Copy)]
pub struct RlmCloseTool;

/// Loads a skill by name or path.
#[derive(Debug, Clone, Copy)]
pub struct LoadSkillTool;

/// Reads a stored tool result by its handle.
#[derive(Debug, Clone, Copy)]
pub struct ReadToolResultTool;

/// Fetches a web page.
#[derive(Debug, Clone, Copy)]
pub struct FetchUrlTool;

/// Calls the GitHub API.
#[derive(Debug, Clone, Copy)]
pub struct GithubGetTool;

/// Searches the web.
#[derive(Debug, Clone, Copy)]
pub struct WebSearchTool;

/// Runs a sequence of browsing steps.
#[derive(Debug, Clone, Copy)]
pub struct WebRunTool;

/// Lists the configured MCP servers.
#[derive(Debug, Clone, Copy)]
pub struct DiscoverMcpServersTool;

/// Connects to an MCP server.
#[derive(Debug, Clone, Copy)]
pub struct ConnectMcpServerTool;

/// Calls a tool of an MCP server.
#[derive(Debug, Clone, Copy)]
pub struct CallMcpTool;

/// Opens a sub-agent.
#[derive(Debug, Clone, Copy)]
pub struct AgentOpenTool;

/// Hands a request to a sub-agent.
#[derive(Debug, Clone, Copy)]
pub struct AgentEvalTool;

/// Closes a sub-agent.
#[derive(Debug, Clone, Copy)]
pub struct AgentCloseTool;

/// Writes a plan file.
#[derive(Debug, Clone, Copy)]
pub struct PlanWriteTool;

/// Creates a session task.
#[derive(Debug, Clone, Copy)]
pub struct TaskCreateTool;

/// Runs a session task.
#[derive(Debug, Clone, Copy)]
pub struct TaskRunTool;

/// Creates an automation.
#[derive(Debug, Clone, Copy)]
pub struct AutomationCreateTool;

/// Runs an automation once.
#[derive(Debug, Clone, Copy)]
pub struct AutomationRunOnceTool;

/// Replaces text in a file.
#[derive(Debug, Clone, Copy)]
pub struct EditFileTool;

/// Lists a directory.
#[derive(Debug, Clone, Copy)]
pub struct ListDirTool;

/// Finds files by name.
#[derive(Debug, Clone, Copy)]
pub struct FileSearchTool;

/// Searches file contents by pattern.
#[derive(Debug, Clone, Copy)]
pub struct GrepFilesTool;

/// Runs the project diagnostics.
#[derive(Debug, Clone, Copy)]
pub struct DiagnosticsTool;

/// Reviews the working tree.
#[derive(Debug, Clone, Copy)]
pub struct ReviewTool;

/// Maps the project tree.
#[derive(Debug, Clone, Copy)]
pub struct ProjectMapTool;

/// Checks that data has the required fields.
#[derive(Debug, Clone, Copy)]
pub struct ValidateDataTool;

/// Runs the tests.
#[derive(Debug, Clone, Copy)]
pub struct RunTestsTool;

/// Records a note.
#[derive(Debug, Clone, Copy)]
pub struct NoteTool;

/// Stores a memory.
#[derive(Debug, Clone, Copy)]
pub struct RememberTool;

/// Searches stored memories.
#[derive(Debug, Clone, Copy)]
pub struct RecallArchiveTool;

/// Sends a notification.
#[derive(Debug, Clone, Copy)]
pub struct NotifyTool;

/// Replaces text in a file in place.
#[derive(Debug, Clone, Copy)]
pub struct FimEditTool;

/// Shows the git status.
#[derive(Debug, Clone, Copy)]
pub struct GitStatusTool;

/// Shows a git diff.
#[derive(Debug, Clone, Copy)]
pub struct GitDiffTool;

/// Shows the git log.
#[derive(Debug, Clone, Copy)]
pub struct GitLogTool;

/// Shows a git object.
#[derive(Debug, Clone, Copy)]
pub struct GitShowTool;

/// Shows git blame for a file.
#[derive(Debug, Clone, Copy)]
pub struct GitBlameTool;

/// Starts a background shell process.
#[derive(Debug, Clone, Copy)]
pub struct ExecShellTool;

/// Waits for output of a background process.
#[derive(Debug, Clone, Copy)]
pub struct ExecShellWaitTool;

/// Writes to a background process.
#[derive(Debug, Clone, Copy)]
pub struct ExecShellInteractTool;

/// Stops a background process.
#[derive(Debug, Clone, Copy)]
pub struct ExecShellCancelTool;

/// Asks the user structured questions.
#[derive(Debug, Clone, Copy)]
pub struct RequestUserInputTool;

/// Reads part of a stored tool result.
#[derive(Debug, Clone, Copy)]
pub struct RetrieveToolResultTool;

/// Reads a `tool:` or `file:` handle.
#[derive(Debug, Clone, Copy)]
pub struct HandleReadTool;

/// Fetches a market quote.
#[derive(Debug, Clone, Copy)]
pub struct FinanceTool;

/// Starts a task in a background process.
#[derive(Debug, Clone, Copy)]
pub struct TaskShellStartTool;

/// Waits for a task's background process.
#[derive(Debug, Clone, Copy)]
pub struct TaskShellWaitTool;

/// Where a tool runs.
#[derive(Debug)]
pub struct ToolExecutionContext {
    /// Workspace root.
    pub workspace_root: String,
    /// Session directory.
    pub session_dir: String,
    /// Shell program.
    pub shell_program: String,
}

/// The text std's `String::from_utf8_lossy` makes of some bytes.
pub uninterp spec fn utf8_lossy_of(bytes: Seq<u8>) -> Seq<char>;

/// std's `String::from_utf8_lossy`; the text is the named function of the bytes.
#[verifier::external_body]
fn utf8_lossy(bytes: &[u8]) -> (res: String)
    ensures
        res@ == utf8_lossy_of(bytes@),
{
    String::from_utf8_lossy(bytes).to_string()
}

/// `c` kept in a file name: ASCII letters and digits, `-` and `_`.
pub open spec fn name_char(c: char) -> char {
    if ('a' <= c && c <= 'z') || ('A' <= c && c <= 'Z') || ('0' <= c && c <= '9') || c == '-' || c
        == '_' {
        c
    } else {
        '_'
    }
}

/// `name` with every other character replaced by `_`.
pub fn sanitize_name(name: &str) -> (res: String)
    ensures
        res@ == name@.map_values(|c: char| name_char(c)),
{
    let v = to_chars(name);
    let mut out: Vec<char> = Vec::new();
    let mut i: usize = 0;
    while i < v.len()
        invariant
            i <= v@.len(),
            out@ == v@.take(i as int).map_values(|c: char| name_char(c)),
        decreases v.len() - i,
    {
        let c = v[i];
        let k = if ('a' <= c && c <= 'z') || ('A' <= c && c <= 'Z') || ('0' <= c && c <= '9') || c
            == '-' || c == '_' {
            c
        } else {
            '_'
        };
        out.push(k);
        i += 1;
        assert(v@.take(i as int).map_values(|c: char| name_char(c)) =~= v@.take(i - 1).map_values(
            |c: char| name_char(c),
        ).push(name_char(v@[i - 1])));
    }
    assert(v@.take(v@.len() as int) =~= v@);
    from_chars(&out)
}

/// The text around the first occurrence of `keyword`: up to `context` characters on either
/// side. There is none for an empty keyword or one that does not occur.
pub open spec fn keyword_context(content: Seq<char>, keyword: Seq<char>, context: int) -> Option<
    Seq<char>,
> {
    if keyword.len() == 0 {
        None
    } else {
        match index_of(content, keyword) {
            None => None,
            Some(m) => {
                let start = if m >= context {
                    m - context
                } else {
                    0
                };
                let end = if m + keyword.len() + context <= content.len() {
                    m + keyword.len() + context
                } else {
                    content.len() as int
                };
                Some(content.subrange(start, end))
            },
        }
    }
}

/// The text around the first occurrence of `keyword` (see `keyword_context`).
pub fn extract_keyword_context(content: &str, keyword: &str, context_chars: usize) -> (res: Option<
    String,
>)
    ensures
        match keyword_context(content@, keyword@, context_chars as int) {
            Some(t) => res matches Some(r) && r@ == t,
            None => res is None,
        },
{
    let chars = to_chars(content);
    let kw = to_chars(keyword);
    if kw.len() == 0 {
        return None;
    }
    match find_chars_from(&chars, &kw, 0) {
        None => None,
        Some(m) => {
            proof {
                lemma_found_at(chars@, kw@, 0, m as int);
            }
            let start: usize = if m >= context_chars {
                m - context_chars
            } else {
                0
            };
            assert(m + kw.len() <= chars.len());
            let after = m + kw.len();
            let end: usize = if context_chars <= chars.len() - after {
                after + context_chars
            } else {
                chars.len()
            };
            Some(from_chars(&sub_vec(&chars, start, end)))
        },
    }
}

/// The report of a finished process: its exit code (-1 when it has none), then its output
/// and errors when there are any, trimmed.
pub open spec fn process_report(stdout: Seq<char>, stderr: Seq<char>, code: Option<i32>) -> Seq<char> {
    let out = trimmed(stdout);
    let err = trimmed(stderr);
    let c = match code {
        Some(c) => c as int,
        None => -1,
    };
    let head = "退出码："@ + crate::text::signed_decimal(c) + "\n"@;
    let with_out = if out.len() > 0 {
        head + "标准输出：\n"@ + out + "\n"@
    } else {
        head
    };
    let with_err = if err.len() > 0 {
        with_out + "标准错误：\n"@ + err + "\n"@
    } else {
        with_out
    };
    trimmed(with_err)
}

/// The report of a finished process, from its raw output (see `process_report`).
pub fn render_process_output(stdout: &[u8], stderr: &[u8], code: Option<i32>) -> (res: String)
    ensures
        res@ == process_report(utf8_lossy_of(stdout@), utf8_lossy_of(stderr@), code),
{
    let out_text = utf8_lossy(stdout);
    let err_text = utf8_lossy(stderr);
    let out = trim_str(out_text.as_str());
    let err = trim_str(err_text.as_str());
    let c: i64 = match code {
        Some(c) => c as i64,
        None => -1,
    };
    let mut v = to_chars("退出码：");
    extend_str(&mut v, crate::text::signed_decimal_text(c).as_str());
    extend_str(&mut v, "\n");
    if char_count(out.as_str()) > 0 {
        extend_str(&mut v, "标准输出：\n");
        extend_str(&mut v, out.as_str());
        extend_str(&mut v, "\n");
    }
    if char_count(err.as_str()) > 0 {
        extend_str(&mut v, "标准错误：\n");
        extend_str(&mut v, err.as_str());
        extend_str(&mut v, "\n");
    }
    let rendered = from_chars(&v);
    trim_str(rendered.as_str())
}

/// The error for bad line numbers.
pub open spec fn bad_range_message() -> Seq<char> {
    "replace_range 行号非法，要求 start_line 与 end_line 均为正整数，且 end_line 不小于 start_line"@
}

/// The lines joined by line feeds.
pub open spec fn join_lines(lines: Seq<Seq<char>>) -> Seq<char>
    decreases lines.len(),
{
    if lines.len() == 0 {
        Seq::empty()
    } else if lines.len() == 1 {
        lines[0]
    } else {
        join_lines(lines.drop_last()) + "\n"@ + lines.last()
    }
}

/// The text after replacing lines `start..=end` (1-based) of `original` by the lines of
/// `new_content` (none when it is empty): the lines joined by line feeds with a final one, or
/// nothing when no line is left. Bad or out-of-range numbers are errors.
pub open spec fn replaced_lines(original: Seq<char>, start: int, end: int, new_content: Seq<char>) -> Result<
    Seq<char>,
    Seq<char>,
> {
    let lines = text_lines(original);
    if start == 0 || end == 0 || end < start {
        Err(bad_range_message())
    } else if start > lines.len() || end > lines.len() {
        Err(
            "replace_range 超出文件范围：文件共 "@ + decimal(lines.len()) + " 行，收到 "@ + decimal(
                start as nat,
            ) + "-"@ + decimal(end as nat),
        )
    } else {
        let repl = if new_content.len() == 0 {
            Seq::empty()
        } else {
            text_lines(new_content)
        };
        let result = lines.take(start - 1) + repl + lines.skip(end);
        if result.len() == 0 {
            Ok(Seq::empty())
        } else {
            Ok(join_lines(result) + "\n"@)
        }
    }
}

/// Checks line numbers for a replacement: both positive and in order.
pub fn check_replace_range(start_line: usize, end_line: usize) -> (res: Result<(), String>)
    ensures
        (start_line == 0 || end_line == 0 || end_line < start_line) ==> (res matches Err(m) && m@
            == bad_range_message()),
        !(start_line == 0 || end_line == 0 || end_line < start_line) ==> res is Ok,
{
    if start_line == 0 || end_line == 0 || end_line < start_line {
        Err(
            owned(
                "replace_range 行号非法，要求 start_line 与 end_line 均为正整数，且 end_line 不小于 start_line",
            ),
        )
    } else {
        Ok(())
    }
}

/// Replaces lines `start_line..=end_line` of `original` (see `replaced_lines`).
pub fn replace_line_range(original: &str, start_line: usize, end_line: usize, new_content: &str) -> (res:
    Result<String, String>)
    ensures
        match replaced_lines(original@, start_line as int, end_line as int, new_content@) {
            Ok(t) => res matches Ok(r) && r@ == t,
            Err(m) => res matches Err(e) && e@ == m,
        },
{
    if let Err(e) = check_replace_range(start_line, end_line) {
        return Err(e);
    }
    let lines = lines_of(original);
    if start_line > lines.len() || end_line > lines.len() {
        let mut v = to_chars("replace_range 超出文件范围：文件共 ");
        extend_str(&mut v, decimal_text(lines.len() as u64).as_str());
        extend_str(&mut v, " 行，收到 ");
        extend_str(&mut v, decimal_text(start_line as u64).as_str());
        extend_str(&mut v, "-");
        extend_str(&mut v, decimal_text(end_line as u64).as_str());
        return Err(from_chars(&v));
    }
    let repl: Vec<String> = if char_count(new_content) == 0 {
        Vec::new()
    } else {
        lines_of(new_content)
    };
    let ghost lv = texts(lines@);
    let ghost rv = texts(repl@);
    let mut result: Vec<String> = Vec::new();
    let mut i: usize = 0;
    while i < start_line - 1
        invariant
            i <= start_line - 1,
            start_line <= lines@.len(),
            lv == texts(lines@),
            texts(result@) == lv.take(i as int),
        decreases start_line - 1 - i,
    {
        let ghost old_result = result@;
        result.push(lines[i].clone());
        assert(texts(result@) =~= texts(old_result).push(lines@[i as int]@));
        assert(lv.take(i + 1) =~= lv.take(i as int).push(lv[i as int]));
        i += 1;
        assert(texts(result@) =~= lv.take(i as int));
    }
    let mut j: usize = 0;
    while j < repl.len()
        invariant
            j <= repl@.len(),
            rv == texts(repl@),
            texts(result@) == lv.take(start_line - 1) + rv.take(j as int),
        decreases repl.len() - j,
    {
        let ghost old_result = result@;
        result.push(repl[j].clone());
        assert(texts(result@) =~= texts(old_result).push(repl@[j as int]@));
        assert(rv.take(j + 1) =~= rv.take(j as int).push(rv[j as int]));
        j += 1;
        assert(texts(result@) =~= lv.take(start_line - 1) + rv.take(j as int));
    }
    assert(rv.take(repl@.len() as int) =~= rv);
    assert(lv.subrange(end_line as int, end_line as int) =~= Seq::<Seq<char>>::empty());
    let mut k: usize = end_line;
    while k < lines.len()
        invariant
            end_line <= k <= lines@.len(),
            lv == texts(lines@),
            rv == texts(repl@),
            texts(result@) == lv.take(start_line - 1) + rv + lv.subrange(end_line as int, k as int),
        decreases lines.len() - k,
    {
        let ghost old_result = result@;
        result.push(lines[k].clone());
        assert(texts(result@) =~= texts(old_result).push(lines@[k as int]@));
        assert(lv.subrange(end_line as int, k + 1) =~= lv.subrange(end_line as int, k as int).push(
            lv[k as int],
        ));
        k += 1;
        assert(texts(result@) =~= lv.take(start_line - 1) + rv + lv.subrange(
            end_line as int,
            k as int,
        ));
    }
    proof {
        assert(rv.take(repl@.len() as int) =~= rv);
        assert(lv.subrange(end_line as int, lv.len() as int) =~= lv.skip(end_line as int));
        reveal_strlit("");
        if char_count_is_zero(new_content@) {
        }
    }
    if result.len() == 0 {
        return Ok(owned(""));
    }
    let mut out: Vec<char> = Vec::new();
    let mut m: usize = 0;
    while m < result.len()
        invariant
            m <= result@.len(),
            result@.len() > 0,
            out@ == join_lines(texts(result@).take(m as int)),
        decreases result.len() - m,
    {
        if m > 0 {
            extend_str(&mut out, "\n");
        }
        extend_str(&mut out, result[m].as_str());
        proof {
            let t = texts(result@).take(m + 1);
            assert(t.drop_last() =~= texts(result@).take(m as int));
            assert(t.last() == result@[m as int]@);
            if m == 0 {
                assert(t.len() == 1);
            }
        }
        m += 1;
    }
    assert(texts(result@).take(result@.len() as int) =~= texts(result@));
    extend_str(&mut out, "\n");
    Ok(from_chars(&out))
}

/// Whether a text is empty.
pub open spec fn char_count_is_zero(s: Seq<char>) -> bool {
    s.len() == 0
}

/// The error for a missing environment variable.
pub fn missing_env_message(name: &str) -> (res: String)
    ensures
        res@ == "缺少环境变量 "@ + name@ + "，无法调用相关工具"@,
{
    concat3("缺少环境变量 ", name, "，无法调用相关工具")
}

/// One choice of a question to the user.
#[derive(Debug)]
pub struct RequestUserInputOption {
    /// Label.
    pub label: String,
    /// Description.
    pub description: String,
}

/// A question to the user.
#[derive(Debug)]
pub struct RequestUserInputQuestion {
    /// Header.
    pub header: String,
    /// Identifier.
    pub id: String,
    /// Question.
    pub question: String,
    /// Choices.
    pub options: Vec<RequestUserInputOption>,
}

/// Whether a text is blank.
pub open spec fn blank(s: Seq<char>) -> bool {
    trimmed(s).len() == 0
}

/// Why one question is not acceptable, if it is not: its fields must not be blank, it needs two
/// or three choices, and theirs must not be blank.
pub open spec fn question_problem(q: RequestUserInputQuestion) -> Option<Seq<char>> {
    if blank(q.header@) || blank(q.id@) || blank(q.question@) {
        Some("request_user_input 存在空白问题字段"@)
    } else if q.options@.len() < 2 || q.options@.len() > 3 {
        Some("request_user_input 的每个问题需要 2 到 3 个选项"@)
    } else if exists|i: int|
        0 <= i < q.options@.len() && (blank(#[trigger] q.options@[i].label@) || blank(
            q.options@[i].description@,
        )) {
        Some("request_user_input 存在空白选项字段"@)
    } else {
        None
    }
}

/// The first problem among the questions from `i` on.
pub open spec fn questions_problem(qs: Seq<RequestUserInputQuestion>, i: int) -> Option<Seq<char>>
    decreases qs.len() - i,
{
    if i < 0 || i >= qs.len() {
        None
    } else {
        match question_problem(qs[i]) {
            Some(p) => Some(p),
            None => questions_problem(qs, i + 1),
        }
    }
}

/// Why the questions are not acceptable, if they are not: one to three of them, each
/// acceptable.
pub open spec fn user_input_problem(qs: Seq<RequestUserInputQuestion>) -> Option<Seq<char>> {
    if qs.len() == 0 || qs.len() > 3 {
        Some("request_user_input 需要 1 到 3 个问题"@)
    } else {
        questions_problem(qs, 0)
    }
}

fn is_blank(s: &str) -> (res: bool)
    ensures
        res == blank(s@),
{
    char_count(trim_str(s).as_str()) == 0
}

fn check_question(q: &RequestUserInputQuestion) -> (res: Result<(), String>)
    ensures
        match question_problem(*q) {
            Some(p) => res matches Err(m) && m@ == p,
            None => res is Ok,
        },
{
    if is_blank(q.header.as_str()) || is_blank(q.id.as_str()) || is_blank(q.question.as_str()) {
        return Err(owned("request_user_input 存在空白问题字段"));
    }
    if q.options.len() < 2 || q.options.len() > 3 {
        return Err(owned("request_user_input 的每个问题需要 2 到 3 个选项"));
    }
    let mut i: usize = 0;
    while i < q.options.len()
        invariant
            i <= q.options@.len(),
            !(blank(q.header@) || blank(q.id@) || blank(q.question@)),
            2 <= q.options@.len() <= 3,
            forall|j: int|
                0 <= j < i ==> !(blank(#[trigger] q.options@[j].label@) || blank(
                    q.options@[j].description@,
                )),
        decreases q.options.len() - i,
    {
        if is_blank(q.options[i].label.as_str()) || is_blank(q.options[i].description.as_str()) {
            assert(blank(q.options@[i as int].label@) || blank(q.options@[i as int].description@));
            assert(exists|j: int|
                0 <= j < q.options@.len() && (blank(#[trigger] q.options@[j].label@) || blank(
                    q.options@[j].description@,
                )));
            return Err(owned("request_user_input 存在空白选项字段"));
        }
        assert(!(blank(q.options@[i as int].label@) || blank(q.options@[i as int].description@)));
        assert(forall|j: int|
            0 <= j < i + 1 ==> !(blank(#[trigger] q.options@[j].label@) || blank(
                q.options@[j].description@,
            ))) by {
            assert forall|j: int| 0 <= j < i + 1 implies !(blank(
                #[trigger] q.options@[j].label@,
            ) || blank(q.options@[j].description@)) by {
                if j == i {
                } else {
                    assert(0 <= j < i);
                }
            }
        }
        i += 1;
    }
    Ok(())
}

/// Checks the questions of a `request_user_input` call (see `user_input_problem`).
pub fn validate_user_input(questions: &Vec<RequestUserInputQuestion>) -> (res: Result<(), String>)
    ensures
        match user_input_problem(questions@) {
            Some(p) => res matches Err(m) && m@ == p,
            None => res is Ok,
        },
{
    if questions.len() == 0 || questions.len() > 3 {
        return Err(owned("request_user_input 需要 1 到 3 个问题"));
    }
    let mut i: usize = 0;
    while i < questions.len()
        invariant
            i <= questions@.len(),
            1 <= questions@.len() <= 3,
            questions_problem(questions@, 0) == questions_problem(questions@, i as int),
        decreases questions.len() - i,
    {
        match check_question(&questions[i]) {
            Err(m) => {
                assert(question_problem(questions@[i as int]) == Some(m@));
                return Err(m);
            },
            Ok(()) => {},
        }
        i += 1;
    }
    Ok(())
}

} // verus!
