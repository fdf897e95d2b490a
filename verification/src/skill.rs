//! Skills: their descriptors, read from the head of a `SKILL.md`, the checks on a skill
//! file, the summary shown in the system prompt, and the prompt itself.

use vstd::prelude::*;

use crate::text::{
    char_count, concat2, decimal, decimal_text, extend_str, from_chars, has_prefix, lines_of,
    owned, starts_with_str, str_eq, sub_vec, texts, text_lines, to_chars, trim_str, trimmed,
    lemma_text_before_asymmetric, lemma_text_before_transitive, str_before, text_before,
};

verus! {

/// A skill found on disk.
#[derive(Debug)]
pub struct SkillDescriptor {
    /// Name.
    pub name: String,
    /// Description.
    pub description: String,
    /// Path of its `SKILL.md`.
    pub path: String,
}

/// Where skills are looked for, and how large a skill file may be.
#[derive(Debug)]
pub struct SkillManager {
    /// Skill directories.
    pub roots: Vec<String>,
    /// Largest skill file, in bytes.
    pub max_skill_file_bytes: usize,
}

impl SkillManager {
    /// The default limit on a skill file, in bytes.
    pub const DEFAULT_MAX_SKILL_FILE_BYTES: usize = 65_536;

    /// Skills under `roots`, with the default size limit.
    pub fn new(roots: Vec<String>) -> (res: SkillManager)
        ensures
            res.roots == roots,
            res.max_skill_file_bytes == 65_536,
    {
        Self::with_limits(roots, Self::DEFAULT_MAX_SKILL_FILE_BYTES)
    }

    /// Skills under `roots`, with the given size limit.
    pub fn with_limits(roots: Vec<String>, max_skill_file_bytes: usize) -> (res: SkillManager)
        ensures
            res.roots == roots,
            res.max_skill_file_bytes == max_skill_file_bytes,
    {
        SkillManager { roots, max_skill_file_bytes }
    }

    /// Checks a file about to be read as a skill: it must be named `SKILL.md` and be no
    /// larger than the limit.
    pub fn check_skill_file(&self, path: &str, file_name: Option<&str>, size: u64) -> (res: Result<
        (),
        String,
    >)
        ensures
            match file_name {
                Some(n) => n@ == "SKILL.md"@,
                None => false,
            } ==> (res is Ok <==> size <= self.max_skill_file_bytes),
            !match file_name {
                Some(n) => n@ == "SKILL.md"@,
                None => false,
            } ==> (res matches Err(m) && m@ == "Skill 路径必须指向 SKILL.md 或其所在目录："@
                + path@),
            match file_name {
                Some(n) => n@ == "SKILL.md"@,
                None => false,
            } && size > self.max_skill_file_bytes ==> (res matches Err(m) && m@
                == "Skill 文件超过大小限制："@ + path@ + "，限制 "@ + decimal(
                self.max_skill_file_bytes as nat,
            ) + " 字节"@),
    {
        let named = match file_name {
            Some(n) => str_eq(n, "SKILL.md"),
            None => false,
        };
        if !named {
            return Err(concat2("Skill 路径必须指向 SKILL.md 或其所在目录：", path));
        }
        if size > self.max_skill_file_bytes as u64 {
            let mut v = to_chars("Skill 文件超过大小限制：");
            extend_str(&mut v, path);
            extend_str(&mut v, "，限制 ");
            extend_str(&mut v, decimal_text(self.max_skill_file_bytes as u64).as_str());
            extend_str(&mut v, " 字节");
            return Err(from_chars(&v));
        }
        Ok(())
    }
}

/// The last value given in the lines for a `prefix` key, trimmed, or `d`.
pub open spec fn skill_field(lines: Seq<Seq<char>>, prefix: Seq<char>, d: Seq<char>) -> Seq<char>
    decreases lines.len(),
{
    if lines.len() == 0 {
        d
    } else {
        let t = trimmed(lines.last());
        if has_prefix(t, prefix) {
            trimmed(t.skip(prefix.len() as int))
        } else {
            skill_field(lines.drop_last(), prefix, d)
        }
    }
}

/// The first `n` lines.
pub open spec fn head_lines(lines: Seq<Seq<char>>, n: int) -> Seq<Seq<char>> {
    if lines.len() > n {
        lines.take(n)
    } else {
        lines
    }
}

/// The value after `prefix` in a trimmed line, trimmed, when the line starts with it.
fn field_value(t: &str, prefix: &str) -> (res: Option<String>)
    ensures
        has_prefix(t@, prefix@) ==> (res matches Some(v) && v@ == trimmed(t@.skip(prefix@.len() as int))),
        !has_prefix(t@, prefix@) ==> res is None,
{
    if starts_with_str(t, prefix) {
        let v = to_chars(t);
        let p = char_count(prefix);
        let rest = from_chars(&sub_vec(&v, p, v.len()));
        assert(rest@ =~= t@.skip(prefix@.len() as int));
        Some(trim_str(rest.as_str()))
    } else {
        None
    }
}

/// The descriptor of the skill file at `path` (in the directory named `dir_name`, when it has
/// one) with text `content`: among its first 20 lines, trimmed, the last `name:` and
/// `description:` lines give its name and description; otherwise the directory's name (or
/// `unknown-skill`) and a note that it has none.
pub fn parse_skill_descriptor(path: &str, dir_name: Option<&str>, content: &str) -> (res:
    SkillDescriptor)
    ensures
        res.name@ == skill_field(
            head_lines(text_lines(content@), 20),
            "name:"@,
            match dir_name {
                Some(n) => n@,
                None => "unknown-skill"@,
            },
        ),
        res.description@ == skill_field(
            head_lines(text_lines(content@), 20),
            "description:"@,
            "未提供描述"@,
        ),
        res.path@ == path@,
{
    let lines = lines_of(content);
    let n: usize = if lines.len() > 20 {
        20
    } else {
        lines.len()
    };
    let ghost all = texts(lines@);
    let ghost head = head_lines(all, 20);
    let mut name = match dir_name {
        Some(d) => owned(d),
        None => owned("unknown-skill"),
    };
    let mut description = owned("未提供描述");
    let ghost name0 = name@;
    let mut i: usize = 0;
    assert(head.take(0) =~= Seq::<Seq<char>>::empty());
    while i < n
        invariant
            i <= n <= lines@.len(),
            all == texts(lines@),
            head == head_lines(all, 20),
            n == head.len(),
            name@ == skill_field(head.take(i as int), "name:"@, name0),
            description@ == skill_field(head.take(i as int), "description:"@, "未提供描述"@),
        decreases n - i,
    {
        let t = trim_str(lines[i].as_str());
        proof {
            assert(head.take(i + 1).drop_last() =~= head.take(i as int));
            assert(head.take(i + 1).last() == lines@[i as int]@);
        }
        if let Some(v) = field_value(t.as_str(), "name:") {
            name = v;
        }
        if let Some(v) = field_value(t.as_str(), "description:") {
            description = v;
        }
        i += 1;
    }
    assert(head.take(n as int) =~= head);
    SkillDescriptor { name, description, path: owned(path) }
}

/// The line of a skill in the summary.
pub open spec fn skill_line(s: SkillDescriptor) -> Seq<char> {
    "- "@ + s.name@ + "："@ + s.description@ + "（"@ + s.path@ + "）"@
}

/// The summary lines joined by line feeds.
pub open spec fn skill_lines(skills: Seq<SkillDescriptor>) -> Seq<char>
    decreases skills.len(),
{
    if skills.len() == 0 {
        Seq::empty()
    } else if skills.len() == 1 {
        skill_line(skills[0])
    } else {
        skill_lines(skills.drop_last()) + "\n"@ + skill_line(skills.last())
    }
}

/// The summary of the skills for the system prompt, or a note that there are none.
pub fn render_skill_summary(skills: &Vec<SkillDescriptor>) -> (res: String)
    ensures
        skills@.len() == 0 ==> res@ == "当前未扫描到可用 Skill。"@,
        skills@.len() > 0 ==> res@ == skill_lines(skills@),
{
    if skills.len() == 0 {
        return owned("当前未扫描到可用 Skill。");
    }
    let mut v: Vec<char> = Vec::new();
    let mut i: usize = 0;
    while i < skills.len()
        invariant
            i <= skills@.len(),
            v@ == skill_lines(skills@.take(i as int)),
        decreases skills.len() - i,
    {
        if i > 0 {
            extend_str(&mut v, "\n");
        }
        extend_str(&mut v, "- ");
        extend_str(&mut v, skills[i].name.as_str());
        extend_str(&mut v, "：");
        extend_str(&mut v, skills[i].description.as_str());
        extend_str(&mut v, "（");
        extend_str(&mut v, skills[i].path.as_str());
        extend_str(&mut v, "）");
        proof {
            let t = skills@.take(i + 1);
            assert(t.drop_last() =~= skills@.take(i as int));
            assert(t.last() == skills@[i as int]);
            if i == 0 {
                assert(skills@.take(0) =~= Seq::<SkillDescriptor>::empty());
            }
        }
        i += 1;
    }
    assert(skills@.take(skills@.len() as int) =~= skills@);
    from_chars(&v)
}

/// The identifier of a skill to load, trimmed; it may not be empty.
pub fn check_skill_identifier(identifier: &str) -> (res: Result<String, String>)
    ensures
        trimmed(identifier@).len() > 0 ==> (res matches Ok(t) && t@ == trimmed(identifier@)),
        trimmed(identifier@).len() == 0 ==> (res matches Err(m) && m@ == "Skill 标识不能为空"@),
{
    let t = trim_str(identifier);
    if char_count(t.as_str()) == 0 {
        Err(owned("Skill 标识不能为空"))
    } else {
        Ok(t)
    }
}

/// The first skill named `name`.
pub open spec fn skill_named(skills: Seq<SkillDescriptor>, name: Seq<char>, i: int) -> Option<int>
    decreases skills.len() - i,
{
    if i < 0 || i >= skills.len() {
        None
    } else if skills[i].name@ == name {
        Some(i)
    } else {
        skill_named(skills, name, i + 1)
    }
}

/// The position of the first skill named `name`, or the error for a missing skill.
pub fn find_skill(skills: &Vec<SkillDescriptor>, name: &str) -> (res: Result<usize, String>)
    ensures
        res matches Ok(i) ==> skill_named(skills@, name@, 0) == Some(i as int),
        res matches Err(m) ==> (skill_named(skills@, name@, 0) is None && m@ == "未找到目标 Skill："@
            + name@),
        skill_named(skills@, name@, 0) is None ==> res is Err,
{
    let mut i: usize = 0;
    while i < skills.len()
        invariant
            i <= skills@.len(),
            skill_named(skills@, name@, 0) == skill_named(skills@, name@, i as int),
        decreases skills.len() - i,
    {
        if str_eq(skills[i].name.as_str(), name) {
            return Ok(i);
        }
        i += 1;
    }
    Err(concat2("未找到目标 Skill：", name))
}

/// Builds the system prompt of a workspace.
pub struct PromptAssembler {
    /// Workspace root.
    pub workspace_root: String,
    /// The skills.
    pub skill_manager: SkillManager,
}

/// The system prompt from the global and workspace `AGENTS.md` texts (notes when missing)
/// and the skill summary, each trimmed, under three headings.
pub open spec fn prompt_text(global: Option<Seq<char>>, workspace: Option<Seq<char>>, skills: Seq<char>) -> Seq<
    char,
> {
    let g = match global {
        Some(t) => t,
        None => "未找到全局 AGENTS.md。"@,
    };
    let w = match workspace {
        Some(t) => t,
        None => "未找到工作区 AGENTS.md。"@,
    };
    "## 全局约束\n"@ + trimmed(g) + "\n\n## 工作区约束\n"@ + trimmed(w) + "\n\n## 可用 Skill 摘要\n"@
        + trimmed(skills) + "\n"@
}

impl PromptAssembler {
    /// An assembler for a workspace.
    pub fn new(workspace_root: String, skill_manager: SkillManager) -> (res: PromptAssembler)
        ensures
            res.workspace_root == workspace_root,
            res.skill_manager == skill_manager,
    {
        PromptAssembler { workspace_root, skill_manager }
    }

    /// The system prompt from what was read (see `prompt_text`).
    pub fn assemble_from(&self, global: Option<&str>, workspace: Option<&str>, skill_summary: &str) -> (res:
        String)
        ensures
            res@ == prompt_text(
                match global {
                    Some(t) => Some(t@),
                    None => None,
                },
                match workspace {
                    Some(t) => Some(t@),
                    None => None,
                },
                skill_summary@,
            ),
    {
        let g = match global {
            Some(t) => trim_str(t),
            None => trim_str("未找到全局 AGENTS.md。"),
        };
        let w = match workspace {
            Some(t) => trim_str(t),
            None => trim_str("未找到工作区 AGENTS.md。"),
        };
        let mut v = to_chars("## 全局约束\n");
        extend_str(&mut v, g.as_str());
        extend_str(&mut v, "\n\n## 工作区约束\n");
        extend_str(&mut v, w.as_str());
        extend_str(&mut v, "\n\n## 可用 Skill 摘要\n");
        extend_str(&mut v, trim_str(skill_summary).as_str());
        extend_str(&mut v, "\n");
        from_chars(&v)
    }
}


/// The skills named `n`, in their order in `s`.
pub open spec fn skills_named(s: Seq<SkillDescriptor>, n: Seq<char>) -> Seq<SkillDescriptor>
    decreases s.len(),
{
    if s.len() == 0 {
        Seq::empty()
    } else if s.last().name@ == n {
        skills_named(s.drop_last(), n).push(s.last())
    } else {
        skills_named(s.drop_last(), n)
    }
}

/// No skill comes after one whose name comes after its own.
pub open spec fn sorted_by_name(s: Seq<SkillDescriptor>) -> bool {
    forall|i: int, j: int| 0 <= i < j < s.len() ==> !text_before(#[trigger] s[j].name@, #[trigger] s[i].name@)
}

/// Inserting at `p` a skill whose name no later skill has adds it at the end of the skills
/// of its name and changes no others.
proof fn lemma_named_insert(s: Seq<SkillDescriptor>, p: int, x: SkillDescriptor, n: Seq<char>)
    requires
        0 <= p <= s.len(),
        forall|k: int| p <= k < s.len() ==> (#[trigger] s[k]).name@ != x.name@,
    ensures
        skills_named(s.insert(p, x), n) == if n == x.name@ {
            skills_named(s, n).push(x)
        } else {
            skills_named(s, n)
        },
    decreases s.len(),
{
    if p == s.len() {
        assert(s.insert(p, x) =~= s.push(x));
        assert(s.push(x).drop_last() =~= s);
    } else {
        let r = s.drop_last();
        let t = s.insert(p, x);
        assert(t.drop_last() =~= r.insert(p, x));
        assert(t.last() == s.last());
        assert forall|k: int| p <= k < r.len() implies (#[trigger] r[k]).name@ != x.name@ by {
            assert(r[k] == s[k]);
        }
        lemma_named_insert(r, p, x, n);
        assert(s[s.len() - 1] == s.last());
    }
}

/// The skills ordered by name, as `sort_by` on the names orders them: a permutation of
/// `skills`, sorted by name, in which skills of one name keep their order.
pub fn sort_skills_by_name(skills: Vec<SkillDescriptor>) -> (res: Vec<SkillDescriptor>)
    ensures
        res@.to_multiset() == skills@.to_multiset(),
        sorted_by_name(res@),
        forall|n: Seq<char>| #[trigger] skills_named(res@, n) == skills_named(skills@, n),
{
    broadcast use vstd::seq_lib::group_to_multiset_ensures;
    let ghost orig = skills@;
    let mut rest = skills;
    let mut out: Vec<SkillDescriptor> = Vec::new();
    let ghost mut k: int = 0;
    assert(orig.take(0) =~= Seq::<SkillDescriptor>::empty());
    while rest.len() > 0
        invariant
            0 <= k <= orig.len(),
            rest@ == orig.skip(k),
            out@.to_multiset() == orig.take(k).to_multiset(),
            sorted_by_name(out@),
            forall|n: Seq<char>| #[trigger] skills_named(out@, n) == skills_named(orig.take(k), n),
        decreases rest@.len(),
    {
        let x = rest.remove(0);
        let mut p: usize = 0;
        while p < out.len() && !str_before(x.name.as_str(), out[p].name.as_str())
            invariant
                p <= out@.len(),
                forall|i: int| 0 <= i < p ==> !text_before(x.name@, #[trigger] out@[i].name@),
            decreases out@.len() - p,
        {
            p += 1;
        }
        let ghost old_out = out@;
        out.insert(p, x);
        proof {
            let t = out@;
            assert(x == orig[k]);
            assert(orig.take(k + 1) =~= orig.take(k).push(x));
            assert(rest@ =~= orig.skip(k + 1));
            assert(t.remove(p as int) =~= old_out);
            assert(t[p as int] == x);
            assert(t.contains(x));
            t.to_multiset_ensures();
            old_out.to_multiset_ensures();
            assert(t.to_multiset().count(x) > 0);
            assert(t.to_multiset().remove(x).insert(x) =~= t.to_multiset());
            assert(t.to_multiset() =~= old_out.to_multiset().insert(x));
            orig.take(k).to_multiset_ensures();
            assert(orig.take(k + 1).to_multiset() =~= orig.take(k).to_multiset().insert(x));
            assert forall|q: int| p <= q < old_out.len() implies (#[trigger] old_out[q]).name@
                != x.name@ by {
                if old_out[q].name@ == x.name@ {
                    lemma_text_before_asymmetric(x.name@, x.name@, 0);
                    if q > p {
                        assert(!text_before(old_out[q].name@, old_out[p as int].name@));
                    }
                }
            }
            assert forall|n: Seq<char>| #[trigger] skills_named(t, n) == skills_named(
                orig.take(k + 1),
                n,
            ) by {
                lemma_named_insert(old_out, p as int, x, n);
                assert(orig.take(k + 1).drop_last() =~= orig.take(k));
                assert(orig.take(k + 1).last() == x);
            }
            assert forall|i: int, j: int| 0 <= i < j < t.len() implies !text_before(
                #[trigger] t[j].name@,
                #[trigger] t[i].name@,
            ) by {
                if j == p {
                    assert(t[i] == old_out[i]);
                } else if i == p {
                    assert(t[j] == old_out[j - 1]);
                    if text_before(old_out[j - 1].name@, x.name@) {
                        lemma_text_before_transitive(
                            old_out[j - 1].name@,
                            x.name@,
                            old_out[p as int].name@,
                            0,
                        );
                        lemma_text_before_asymmetric(
                            old_out[p as int].name@,
                            old_out[p as int].name@,
                            0,
                        );
                    }
                } else {
                    let oi = if i < p { i } else { i - 1 };
                    let oj = if j < p { j } else { j - 1 };
                    assert(t[i] == old_out[oi]);
                    assert(t[j] == old_out[oj]);
                }
            }
            k = k + 1;
        }
    }
    proof {
        assert(orig.take(k) =~= orig);
    }
    out
}

} // verus!
