//! The `session.ini` snapshot of a session: the entries written and how a session is read
//! back, with defaults for what is missing.

use vstd::prelude::*;

use crate::domain::{
    approval_mode_name, approval_mode_of, opt_view, session_status_name, session_status_of,
    ApprovalMode, SessionStatus,
};
use configparser::ini::Ini;

use crate::records::Session;
use crate::settings::{ini_error, ini_error_of, ini_get, ini_value_of, load_error_text};
use crate::text::{
    ascii_lower, decimal, extend_str, from_chars, owned, signed_decimal, signed_decimal_text,
    str_eq, to_chars, trimmed, is_ws, leading_ws, trailing_ws, digit_char, index_of, strip_cr, lemma_find_from_bounds,
    text_lines,
};
use crate::util::{now_rfc3339, sha256_hex, sha256_hex_of, timestamp_char, utc_timestamp};

verus! {

/// The name of the snapshot file.
pub const SESSION_INI_NAME: &'static str = "session.ini";

/// The name of the message snapshot.
pub const MEMORY_JSON_NAME: &'static str = "memory.json";

/// The name of the message snapshot's backup.
pub const MEMORY_JSON_BACKUP_NAME: &'static str = "memory.json.bak";

/// The tool result index, relative to the session directory.
pub const TOOL_RESULT_INDEX_NAME: &'static str = "tool_results/index.json";

/// The name of the working memory file.
pub const WORKING_MEMORY_NAME: &'static str = "working_memory.json";

/// One INI entry: section, key and value.
pub struct IniEntry {
    /// Section.
    pub section: String,
    /// Key.
    pub key: String,
    /// Value.
    pub value: String,
}

/// The entries as plain values.
pub open spec fn entries_view(v: Seq<IniEntry>) -> Seq<(Seq<char>, Seq<char>, Seq<char>)> {
    v.map_values(|e: IniEntry| (e.section@, e.key@, e.value@))
}

/// The text of a boolean (std's `bool::to_string`).
pub open spec fn bool_text(b: bool) -> Seq<char> {
    if b {
        "true"@
    } else {
        "false"@
    }
}

/// The entries of a session's snapshot, in order.
pub open spec fn session_entries(s: Session) -> Seq<(Seq<char>, Seq<char>, Seq<char>)> {
    seq![
        ("session"@, "id"@, s.id@),
        ("session"@, "directory_id"@, s.directory_id@),
        ("session"@, "name"@, s.name@),
        ("session"@, "project_name"@, s.project_name@),
        ("session"@, "project_path"@, s.project_path@),
        ("session"@, "working_directory"@, s.working_directory@),
        ("session"@, "model"@, s.model@),
        ("session"@, "approval_mode"@, approval_mode_name(s.approval_mode)),
        ("session"@, "status"@, session_status_name(s.status)),
        ("session"@, "system_prompt"@, s.system_prompt@),
        ("session"@, "stream_output"@, bool_text(s.stream_output)),
        ("state"@, "round"@, signed_decimal(s.round as int)),
        ("state"@, "is_finished"@, bool_text(s.is_finished)),
        ("snapshot"@, "version"@, signed_decimal(s.snapshot_version as int)),
        ("snapshot"@, "last_round_no"@, signed_decimal(s.last_round_no as int)),
        ("snapshot"@, "content_hash"@, s.content_hash@),
        ("meta"@, "created_at"@, s.created_at@),
        ("meta"@, "updated_at"@, s.updated_at@),
    ]
}

fn entry(section: &str, key: &str, value: String) -> (res: IniEntry)
    ensures
        res.section@ == section@,
        res.key@ == key@,
        res.value == value,
{
    IniEntry { section: owned(section), key: owned(key), value }
}

fn bool_string(b: bool) -> (res: String)
    ensures
        res@ == bool_text(b),
{
    if b {
        owned("true")
    } else {
        owned("false")
    }
}

/// The entries written to a session's snapshot.
pub fn session_ini_entries(session: &Session) -> (res: Vec<IniEntry>)
    ensures
        entries_view(res@) == session_entries(*session),
{
    let res = vec![
        entry("session", "id", session.id.clone()),
        entry("session", "directory_id", session.directory_id.clone()),
        entry("session", "name", session.name.clone()),
        entry("session", "project_name", session.project_name.clone()),
        entry("session", "project_path", session.project_path.clone()),
        entry("session", "working_directory", session.working_directory.clone()),
        entry("session", "model", session.model.clone()),
        entry("session", "approval_mode", owned(session.approval_mode.as_str())),
        entry("session", "status", owned(session.status.as_str())),
        entry("session", "system_prompt", session.system_prompt.clone()),
        entry("session", "stream_output", bool_string(session.stream_output)),
        entry("state", "round", signed_decimal_text(session.round)),
        entry("state", "is_finished", bool_string(session.is_finished)),
        entry("snapshot", "version", signed_decimal_text(session.snapshot_version)),
        entry("snapshot", "last_round_no", signed_decimal_text(session.last_round_no)),
        entry("snapshot", "content_hash", session.content_hash.clone()),
        entry("meta", "created_at", session.created_at.clone()),
        entry("meta", "updated_at", session.updated_at.clone()),
    ];
    assert(entries_view(res@) =~= session_entries(*session));
    res
}

/// configparser's INI document.
#[verifier::external_type_specification]
#[verifier::external_body]
pub struct ExIni(configparser::ini::Ini);

/// What an INI document holds: the value of each section and key, as stored.
pub uninterp spec fn ini_entries(ini: Ini) -> Map<(Seq<char>, Seq<char>), Option<Seq<char>>>;

/// The sections of an INI document, with keys or without.
pub uninterp spec fn ini_sections(ini: Ini) -> Set<Seq<char>>;

/// A document that holds nothing.
pub open spec fn no_entries() -> Map<(Seq<char>, Seq<char>), Option<Seq<char>>> {
    Map::empty()
}

/// Every character of `s` is ASCII.
pub open spec fn ascii_text(s: Seq<char>) -> bool {
    forall|i: int| 0 <= i < s.len() ==> (#[trigger] s[i] as u32) < 128
}

/// configparser's `Ini::new`: a case-insensitive document that holds nothing.
#[verifier::external_body]
fn ini_new() -> (res: Ini)
    ensures
        ini_entries(res) == no_entries(),
        ini_sections(res) == Set::<Seq<char>>::empty(),
{
    Ini::new()
}

/// configparser's `Ini::set` with a value: the value of the section and key, both lower-cased
/// (the document is case-insensitive), becomes `value`, and the section is one of the
/// document's (it is made when it was not). What is stored under a section or
/// key that is not ASCII is left unsaid: configparser lower-cases it by Unicode rules.
#[verifier::external_body]
fn ini_set(ini: &mut Ini, section: &str, key: &str, value: &str)
    ensures
        ascii_text(section@) && ascii_text(key@) ==> ini_entries(*final(ini)) == ini_entries(
            *old(ini),
        ).insert((ascii_lower(section@), ascii_lower(key@)), Some(value@)),
        ascii_text(section@) && ascii_text(key@) ==> ini_sections(*final(ini)) == ini_sections(
            *old(ini),
        ).insert(ascii_lower(section@)),
{
    ini.set(section, key, Some(value.to_string()));
}

/// A section or key name that configparser writes and reads back as it is: not empty, of
/// lower-case ASCII letters, digits and `_`.
pub open spec fn plain_name(n: Seq<char>) -> bool {
    n.len() > 0 && forall|i: int|
        0 <= i < n.len() ==> ('a' <= #[trigger] n[i] <= 'z') || ('0' <= n[i] <= '9') || n[i]
            == '_'
}

/// A character that ends an INI line or starts a comment in it.
pub open spec fn line_breaking(c: char) -> bool {
    c == '\n' || c == ';' || c == '#'
}

/// A value that configparser writes and reads back as it is: on one line, without comment
/// characters, and without whitespace at either end.
pub open spec fn plain_value(v: Seq<char>) -> bool {
    &&& forall|i: int| 0 <= i < v.len() ==> !line_breaking(#[trigger] v[i])
    &&& trimmed(v) == v
}

/// The first line of a value, as the line that starts `key=value` holds it: up to the first
/// line feed, without a carriage return right before it.
pub open spec fn head_line(v: Seq<char>) -> Seq<char> {
    match index_of(v, seq!['\n']) {
        Some(i) => strip_cr(v.take(i)),
        None => v,
    }
}

/// The lines of a value after its first, each a line of its own in the written text.
pub open spec fn tail_lines(v: Seq<char>) -> Seq<Seq<char>> {
    match index_of(v, seq!['\n']) {
        Some(i) => text_lines(v.skip(i + 1)),
        None => Seq::empty(),
    }
}

/// The position of the first `;` or `#` in `s` at or after `i`.
pub open spec fn comment_from(s: Seq<char>, i: int) -> Option<int>
    decreases s.len() - i,
{
    if i < 0 || i >= s.len() {
        None
    } else if s[i] == ';' || s[i] == '#' {
        Some(i)
    } else {
        comment_from(s, i + 1)
    }
}

/// `s` up to its first `;` or `#`: configparser cuts a line there.
pub open spec fn before_comment(s: Seq<char>) -> Seq<char> {
    match comment_from(s, 0) {
        Some(i) => s.take(i),
        None => s,
    }
}

/// The position of the first `=` or `:` in `s` at or after `i`.
pub open spec fn delimiter_from(s: Seq<char>, i: int) -> Option<int>
    decreases s.len() - i,
{
    if i < 0 || i >= s.len() {
        None
    } else if s[i] == '=' || s[i] == ':' {
        Some(i)
    } else {
        delimiter_from(s, i + 1)
    }
}

/// The key that configparser reads from a line `t` outside a section header: what stands
/// before its first `=` or `:`, trimmed, or the whole line when it has neither.
pub open spec fn line_key(t: Seq<char>) -> Seq<char> {
    match delimiter_from(t, 0) {
        Some(i) => trimmed(t.take(i)),
        None => t,
    }
}

/// A character that lower-cases into a plain name: an ASCII letter, digit or `_`, or the
/// Kelvin sign (which lower-cases to `k`).
pub open spec fn name_like_char(c: char) -> bool {
    ('a' <= c && c <= 'z') || ('A' <= c && c <= 'Z') || ('0' <= c && c <= '9') || c == '_'
        || c == '\u{212A}'
}

/// What configparser's case folding makes of a text of `name_like_char`s.
pub open spec fn fold_name(t: Seq<char>) -> Seq<char> {
    t.map_values(|c: char| if c == '\u{212A}' { 'k' } else if 'A' <= c && c <= 'Z' {
        ((c as int) + 32) as char
    } else {
        c
    })
}

/// A line that, read inside a section whose keys are `keys`, changes none of them and is no
/// error: empty or a comment once trimmed, or else, cut at its first `;` or `#` and trimmed,
/// no section header and a non-empty key that does not fold into one of `keys` (a text with
/// any other character folds into no plain name).
pub open spec fn inert_line(l: Seq<char>, keys: Set<Seq<char>>) -> bool {
    let line = trimmed(l);
    ||| line.len() == 0
    ||| line[0] == ';'
    ||| line[0] == '#'
    ||| {
        let t = trimmed(before_comment(line));
        let k = line_key(t);
        &&& t.len() > 0
        &&& t[0] != '['
        &&& k.len() > 0
        &&& ((exists|i: int| 0 <= i < k.len() && !name_like_char(#[trigger] k[i])) || !keys.contains(
            fold_name(k),
        ))
    }
}

/// A value that configparser writes under a key of a section whose keys are `keys` and reads
/// back by its first line: every later line is inert.
pub open spec fn value_readable(v: Seq<char>, keys: Set<Seq<char>>) -> bool {
    forall|j: int| 0 <= j < tail_lines(v).len() ==> inert_line(#[trigger] tail_lines(v)[j], keys)
}

/// What configparser reads back from the line `key=v` for a value `v`: its first line, cut
/// at the first `;` or `#` and trimmed. A plain value reads back as it is
/// (`lemma_plain_readable`).
pub open spec fn read_value(v: Seq<char>) -> Seq<char> {
    trimmed(before_comment(head_line(v)))
}

/// The keys of section `sec` in a document.
pub open spec fn section_keys(m: Map<(Seq<char>, Seq<char>), Option<Seq<char>>>, sec: Seq<char>) -> Set<
    Seq<char>,
> {
    Set::new(|k: Seq<char>| m.contains_key((sec, k)))
}

/// A document that configparser writes and reads back by the first line of each value:
/// plain names, no section named `default` (configparser writes that one without a header),
/// and readable values.
pub open spec fn ini_readable(m: Map<(Seq<char>, Seq<char>), Option<Seq<char>>>) -> bool {
    forall|k: (Seq<char>, Seq<char>)|
        #[trigger] m.contains_key(k) ==> {
            &&& plain_name(k.0)
            &&& plain_name(k.1)
            &&& k.0 != "default"@
            &&& match m[k] {
                Some(v) => value_readable(v, section_keys(m, k.0)),
                None => true,
            }
        }
}

/// What reading the written text back gives for a stored value (see `read_value`).
pub open spec fn read_back_value(v: Option<Seq<char>>) -> Option<Seq<char>> {
    match v {
        Some(t) => Some(read_value(t)),
        None => None,
    }
}

/// Section names that configparser writes as headers and reads back as they are: plain, and
/// none named `default`.
pub open spec fn sections_plain(s: Set<Seq<char>>) -> bool {
    forall|n: Seq<char>| #[trigger] s.contains(n) ==> plain_name(n) && n != "default"@
}

/// The line configparser writes for key `k` with value `v`: `k=v` (the value as it is, line
/// feeds and all), or `k` alone for a key without a value, and the line ending `le`.
pub open spec fn key_line(k: Seq<char>, v: Option<Seq<char>>, le: Seq<char>) -> Seq<char> {
    k + match v {
        Some(t) => seq!['='] + t,
        None => Seq::empty(),
    } + le
}

/// The lines of the keys `keys` of section `sec`, in that order.
pub open spec fn key_lines(
    m: Map<(Seq<char>, Seq<char>), Option<Seq<char>>>,
    sec: Seq<char>,
    keys: Seq<Seq<char>>,
    le: Seq<char>,
) -> Seq<char>
    decreases keys.len(),
{
    if keys.len() == 0 {
        Seq::empty()
    } else {
        key_lines(m, sec, keys.drop_last(), le) + key_line(keys.last(), m[(sec, keys.last())], le)
    }
}

/// The sections `secs` in that order, each a `[section]` line and the lines of its keys in
/// the order `orders` gives for it.
pub open spec fn section_blocks(
    m: Map<(Seq<char>, Seq<char>), Option<Seq<char>>>,
    secs: Seq<Seq<char>>,
    orders: Seq<Seq<Seq<char>>>,
    le: Seq<char>,
) -> Seq<char>
    decreases secs.len(),
{
    if secs.len() == 0 || orders.len() == 0 {
        Seq::empty()
    } else {
        section_blocks(m, secs.drop_last(), orders.drop_last(), le) + seq!['['] + secs.last() + seq![
            ']',
        ] + le + key_lines(m, secs.last(), orders.last(), le)
    }
}

/// Whether `text` is what configparser writes for a document with entries `m` and sections
/// `sections`, in some order of sections and of keys: first the keys of the `default`
/// section without a header, then every other section, each once, as its header and the lines
/// of its keys, each once, all lines ended alike by a line feed (or, on Windows, a carriage
/// return and a line feed).
pub open spec fn written_ini(
    m: Map<(Seq<char>, Seq<char>), Option<Seq<char>>>,
    sections: Set<Seq<char>>,
    text: Seq<char>,
) -> bool {
    exists|le: Seq<char>, dk: Seq<Seq<char>>, secs: Seq<Seq<char>>, orders: Seq<Seq<Seq<char>>>|
        {
            &&& (le == seq!['\n'] || le == seq!['\r', '\n'])
            &&& dk.no_duplicates()
            &&& dk.to_set() == section_keys(m, "default"@)
            &&& secs.no_duplicates()
            &&& secs.to_set() == sections.remove("default"@)
            &&& orders.len() == secs.len()
            &&& forall|i: int|
                0 <= i < secs.len() ==> (#[trigger] orders[i]).no_duplicates() && orders[i].to_set()
                    == section_keys(m, secs[i])
            &&& text == key_lines(m, "default"@, dk, le) + section_blocks(m, secs, orders, le)
        }
}

/// configparser's `Ini::writes`: the keys of the `default` section, then a `[section]` line
/// for every other section, followed by a `key=value` line for each of its keys, the value
/// written as it is (`written_ini`). The order of sections and keys is left open:
/// configparser keeps them in hash maps, so it varies from process to process. Also claimed
/// is what reading the text back gives (`Ini::read`, then `Ini::get`) when every section has
/// a plain name and the document is readable (`ini_readable`): it reads without error, and
/// each key gives the first line of its value, cut at its first `;` or `#` and trimmed
/// (`read_value`), since its later lines are inert.
#[verifier::external_body]
fn ini_writes(ini: &Ini) -> (res: String)
    ensures
        written_ini(ini_entries(*ini), ini_sections(*ini), res@),
        ini_readable(ini_entries(*ini)) && sections_plain(ini_sections(*ini)) ==> ini_error_of(
            res@,
        ) is None,
        ini_readable(ini_entries(*ini)) && sections_plain(ini_sections(*ini)) ==> forall|k: (Seq<char>, Seq<char>)|
            #[trigger] ini_entries(*ini).contains_key(k) ==> ini_value_of(res@, k.0, k.1)
                == read_back_value(ini_entries(*ini)[k]),
{
    ini.writes()
}

/// Whether every section and key of the entries is ASCII.
pub open spec fn entries_ascii(s: Seq<(Seq<char>, Seq<char>, Seq<char>)>) -> bool {
    forall|i: int| 0 <= i < s.len() ==> ascii_text(#[trigger] s[i].0) && ascii_text(s[i].1)
}

/// What a case-insensitive document holds after setting the entries in order: a later entry
/// for the same section and key wins.
pub open spec fn entries_map(s: Seq<(Seq<char>, Seq<char>, Seq<char>)>) -> Map<
    (Seq<char>, Seq<char>),
    Option<Seq<char>>,
>
    decreases s.len(),
{
    if s.len() == 0 {
        Map::empty()
    } else {
        let e = s.last();
        entries_map(s.drop_last()).insert((ascii_lower(e.0), ascii_lower(e.1)), Some(e.2))
    }
}

/// The sections named by the entries, lower-cased.
pub open spec fn entries_sections(s: Seq<(Seq<char>, Seq<char>, Seq<char>)>) -> Set<Seq<char>>
    decreases s.len(),
{
    if s.len() == 0 {
        Set::empty()
    } else {
        entries_sections(s.drop_last()).insert(ascii_lower(s.last().0))
    }
}

/// The INI document of `entries`, set in order.
pub fn ini_of_entries(entries: &Vec<IniEntry>) -> (res: Ini)
    ensures
        entries_ascii(entries_view(entries@)) ==> ini_entries(res) == entries_map(
            entries_view(entries@),
        ),
        entries_ascii(entries_view(entries@)) ==> ini_sections(res) == entries_sections(
            entries_view(entries@),
        ),
{
    let mut ini = ini_new();
    let mut i: usize = 0;
    while i < entries.len()
        invariant
            i <= entries@.len(),
            entries_ascii(entries_view(entries@).take(i as int)) ==> ini_entries(ini)
                == entries_map(entries_view(entries@).take(i as int)),
            entries_ascii(entries_view(entries@).take(i as int)) ==> ini_sections(ini)
                == entries_sections(entries_view(entries@).take(i as int)),
        decreases entries.len() - i,
    {
        let ghost pre = entries_view(entries@).take(i as int);
        let ghost next = entries_view(entries@).take(i + 1);
        let e = &entries[i];
        ini_set(&mut ini, e.section.as_str(), e.key.as_str(), e.value.as_str());
        proof {
            assert(next.drop_last() =~= pre);
            assert(next.last() == (e.section@, e.key@, e.value@));
            if entries_ascii(next) {
                assert forall|j: int| 0 <= j < pre.len() implies ascii_text(#[trigger] pre[j].0)
                    && ascii_text(pre[j].1) by {
                    assert(pre[j] == next[j]);
                }
                assert(ascii_text(next[i as int].0) && ascii_text(next[i as int].1));
            }
        }
        i += 1;
    }
    assert(entries_view(entries@).take(entries@.len() as int) =~= entries_view(entries@));
    ini
}

/// Whether the entries have plain names, none in a `default` section.
pub open spec fn entries_names_plain(s: Seq<(Seq<char>, Seq<char>, Seq<char>)>) -> bool {
    forall|i: int|
        0 <= i < s.len() ==> {
            &&& plain_name(#[trigger] s[i].0)
            &&& plain_name(s[i].1)
            &&& s[i].0 != "default"@
        }
}

/// Whether the entries have plain names, none in a `default` section, and values that read
/// back by their first lines among the keys of their sections.
pub open spec fn entries_readable(s: Seq<(Seq<char>, Seq<char>, Seq<char>)>) -> bool {
    &&& entries_names_plain(s)
    &&& forall|i: int|
        0 <= i < s.len() ==> value_readable(#[trigger] s[i].2, section_keys(entries_map(s), s[i].0))
}

/// A plain name is ASCII and its own lower-case form.
pub proof fn lemma_plain_name_lower(n: Seq<char>)
    requires
        plain_name(n),
    ensures
        ascii_text(n),
        ascii_lower(n) == n,
{
    assert(ascii_lower(n) =~= n);
}

/// Entries with plain names are ASCII, and each key of their document comes from an entry
/// with that section and key, whose value it holds.
pub proof fn lemma_entries_map_names(s: Seq<(Seq<char>, Seq<char>, Seq<char>)>)
    requires
        entries_names_plain(s),
    ensures
        entries_ascii(s),
        forall|k: (Seq<char>, Seq<char>)|
            #[trigger] entries_map(s).contains_key(k) ==> exists|i: int|
                0 <= i < s.len() && (#[trigger] s[i].0, s[i].1) == k && entries_map(s)[k] == Some(
                    s[i].2,
                ),
    decreases s.len(),
{
    assert forall|i: int| 0 <= i < s.len() implies ascii_text(#[trigger] s[i].0) && ascii_text(
        s[i].1,
    ) by {
        lemma_plain_name_lower(s[i].0);
        lemma_plain_name_lower(s[i].1);
    }
    if s.len() > 0 {
        let rest = s.drop_last();
        assert forall|i: int| 0 <= i < rest.len() implies {
            &&& plain_name(#[trigger] rest[i].0)
            &&& plain_name(rest[i].1)
            &&& rest[i].0 != "default"@
        } by {
            assert(rest[i] == s[i]);
        }
        lemma_entries_map_names(rest);
        let e = s.last();
        let n = s.len() - 1;
        assert(s[n] == e);
        lemma_plain_name_lower(e.0);
        lemma_plain_name_lower(e.1);
        assert forall|k: (Seq<char>, Seq<char>)| #[trigger] entries_map(s).contains_key(k) implies exists|i: int|
            0 <= i < s.len() && (#[trigger] s[i].0, s[i].1) == k && entries_map(s)[k] == Some(s[i].2) by {
            if k == (e.0, e.1) {
                assert((s[n].0, s[n].1) == k && entries_map(s)[k] == Some(s[n].2));
            } else {
                assert(entries_map(rest).contains_key(k));
                let i = choose|i: int|
                    0 <= i < rest.len() && (#[trigger] rest[i].0, rest[i].1) == k && entries_map(rest)[k]
                        == Some(rest[i].2);
                assert(rest[i] == s[i]);
                assert((s[i].0, s[i].1) == k && entries_map(s)[k] == Some(s[i].2));
            }
        }
    }
}

/// Readable entries make a readable document.
pub proof fn lemma_entries_map_readable(s: Seq<(Seq<char>, Seq<char>, Seq<char>)>)
    requires
        entries_readable(s),
    ensures
        entries_ascii(s),
        ini_readable(entries_map(s)),
{
    lemma_entries_map_names(s);
    let m = entries_map(s);
    assert forall|k: (Seq<char>, Seq<char>)| #[trigger] m.contains_key(k) implies {
        &&& plain_name(k.0)
        &&& plain_name(k.1)
        &&& k.0 != "default"@
        &&& match m[k] {
            Some(v) => value_readable(v, section_keys(m, k.0)),
            None => true,
        }
    } by {
        let i = choose|i: int|
            0 <= i < s.len() && (#[trigger] s[i].0, s[i].1) == k && m[k] == Some(s[i].2);
        assert(value_readable(s[i].2, section_keys(m, s[i].0)));
    }
}

/// Entries with plain names name plain sections.
pub proof fn lemma_entries_sections_plain(s: Seq<(Seq<char>, Seq<char>, Seq<char>)>)
    requires
        entries_names_plain(s),
    ensures
        sections_plain(entries_sections(s)),
    decreases s.len(),
{
    if s.len() > 0 {
        let rest = s.drop_last();
        assert forall|i: int| 0 <= i < rest.len() implies {
            &&& plain_name(#[trigger] rest[i].0)
            &&& plain_name(rest[i].1)
            &&& rest[i].0 != "default"@
        } by {
            assert(rest[i] == s[i]);
        }
        lemma_entries_sections_plain(rest);
        let e = s.last();
        assert(s[s.len() - 1] == e);
        lemma_plain_name_lower(e.0);
    }
}

/// Where the entries after position `i` name other keys, the document holds entry `i`'s
/// value under its key.
pub proof fn lemma_entries_map_at(s: Seq<(Seq<char>, Seq<char>, Seq<char>)>, i: int)
    requires
        0 <= i < s.len(),
        entries_names_plain(s),
        forall|j: int| i < j < s.len() ==> (#[trigger] s[j].0, s[j].1) != (s[i].0, s[i].1),
    ensures
        entries_map(s).contains_key((s[i].0, s[i].1)),
        entries_map(s)[(s[i].0, s[i].1)] == Some(s[i].2),
    decreases s.len(),
{
    let rest = s.drop_last();
    let e = s.last();
    assert(s[s.len() - 1] == e);
    lemma_plain_name_lower(e.0);
    lemma_plain_name_lower(e.1);
    if i < s.len() - 1 {
        assert forall|j: int| 0 <= j < rest.len() implies {
            &&& plain_name(#[trigger] rest[j].0)
            &&& plain_name(rest[j].1)
            &&& rest[j].0 != "default"@
        } by {
            assert(rest[j] == s[j]);
        }
        assert forall|j: int| i < j < rest.len() implies (#[trigger] rest[j].0, rest[j].1) != (
            rest[i].0,
            rest[i].1,
        ) by {
            assert(rest[j] == s[j]);
            assert(rest[i] == s[i]);
        }
        lemma_entries_map_at(rest, i);
        assert(rest[i] == s[i]);
        assert((e.0, e.1) != (s[i].0, s[i].1));
    }
}

/// The INI text of `entries` (see `ini_of_entries` and `ini_writes`): for ASCII names, what
/// configparser writes for their document; for readable entries it reads without error and gives, for each key, the first line of the value of the last
/// entry that names it.
pub fn render_ini(entries: &Vec<IniEntry>) -> (res: String)
    ensures
        entries_ascii(entries_view(entries@)) ==> written_ini(
            entries_map(entries_view(entries@)),
            entries_sections(entries_view(entries@)),
            res@,
        ),
        entries_readable(entries_view(entries@)) ==> ini_error_of(res@) is None,
        entries_readable(entries_view(entries@)) ==> forall|k: (Seq<char>, Seq<char>)|
            #[trigger] entries_map(entries_view(entries@)).contains_key(k) ==> ini_value_of(
                res@,
                k.0,
                k.1,
            ) == read_back_value(entries_map(entries_view(entries@))[k]),
{
    let ini = ini_of_entries(entries);
    proof {
        if entries_readable(entries_view(entries@)) {
            lemma_entries_map_readable(entries_view(entries@));
            lemma_entries_sections_plain(entries_view(entries@));
        }
    }
    ini_writes(&ini)
}

/// std's `bool::from_str`: exactly `true` or `false`.
pub open spec fn bool_of(v: Seq<char>) -> Option<bool> {
    if v == "true"@ {
        Some(true)
    } else if v == "false"@ {
        Some(false)
    } else {
        None
    }
}

/// The value of a decimal digit string.
pub open spec fn digits_int(s: Seq<char>) -> int
    decreases s.len(),
{
    if s.len() == 0 {
        0
    } else {
        digits_int(s.drop_last()) * 10 + (s.last() as int - '0' as int)
    }
}

/// std's `i64::from_str`: an optional sign and at least one decimal digit, within `i64`.
pub open spec fn i64_of(v: Seq<char>) -> Option<i64> {
    let neg = v.len() > 0 && v[0] == '-';
    let d = if v.len() > 0 && (v[0] == '+' || v[0] == '-') {
        v.drop_first()
    } else {
        v
    };
    let n = if neg {
        -digits_int(d)
    } else {
        digits_int(d)
    };
    if d.len() > 0 && (forall|i: int| 0 <= i < d.len() ==> '0' <= #[trigger] d[i] <= '9')
        && i64::MIN <= n <= i64::MAX {
        Some(n as i64)
    } else {
        None
    }
}

/// `value.parse::<i64>().ok()` (std's `i64::from_str`).
#[verifier::external_body]
fn parse_i64(value: &str) -> (res: Option<i64>)
    ensures
        res == i64_of(value@),
{
    value.parse::<i64>().ok()
}

/// The boolean a value reads as.
fn parse_bool(value: &str) -> (res: Option<bool>)
    ensures
        res == bool_of(value@),
{
    if str_eq(value, "true") {
        Some(true)
    } else if str_eq(value, "false") {
        Some(false)
    } else {
        None
    }
}

/// A value of the snapshot, or a default.
pub open spec fn value_or(text: Seq<char>, section: Seq<char>, key: Seq<char>, d: Seq<char>) -> Seq<
    char,
> {
    match ini_value_of(text, section, key) {
        Some(v) => v,
        None => d,
    }
}

/// A boolean of the snapshot, or a default.
pub open spec fn bool_or(text: Seq<char>, section: Seq<char>, key: Seq<char>, d: bool) -> bool {
    match ini_value_of(text, section, key) {
        Some(v) => match bool_of(v) {
            Some(b) => b,
            None => d,
        },
        None => d,
    }
}

/// A number of the snapshot, or a default.
pub open spec fn int_or(text: Seq<char>, section: Seq<char>, key: Seq<char>, d: i64) -> i64 {
    match ini_value_of(text, section, key) {
        Some(v) => match i64_of(v) {
            Some(n) => n,
            None => d,
        },
        None => d,
    }
}

fn get_or(text: &str, section: &str, key: &str, d: &str) -> (res: String)
    ensures
        res@ == value_or(text@, section@, key@, d@),
{
    match ini_get(text, section, key) {
        Some(v) => v,
        None => owned(d),
    }
}

fn bool_get_or(text: &str, section: &str, key: &str, d: bool) -> (res: bool)
    ensures
        res == bool_or(text@, section@, key@, d),
{
    match ini_get(text, section, key) {
        Some(v) => match parse_bool(v.as_str()) {
            Some(b) => b,
            None => d,
        },
        None => d,
    }
}

fn int_get_or(text: &str, section: &str, key: &str, d: i64) -> (res: i64)
    ensures
        res == int_or(text@, section@, key@, d),
{
    match ini_get(text, section, key) {
        Some(v) => match parse_i64(v.as_str()) {
            Some(n) => n,
            None => d,
        },
        None => d,
    }
}

/// The session read back from the snapshot `text` of the directory `session_dir` (whose
/// last component is `dir_name`, when it has one), at time `now`. Missing values take
/// defaults: the directory's name for the identifier, the hash of the project path for the
/// workspace, `restored-session`, `workspace`, the project path for the working directory,
/// `deepseek-v4-flash`, asking for approval, `selected`, streaming, round 0, unfinished,
/// version 1, and `now` for the times.
pub open spec fn session_from_text(
    text: Seq<char>,
    session_dir: Seq<char>,
    dir_name: Option<Seq<char>>,
    now: Seq<char>,
    s: Session,
) -> bool {
    let project_path = value_or(text, "session"@, "project_path"@, Seq::empty());
    &&& s.id@ == match ini_value_of(text, "session"@, "id"@) {
        Some(v) => v,
        None => match dir_name {
            Some(n) => n,
            None => Seq::empty(),
        },
    }
    &&& s.directory_id@ == match ini_value_of(text, "session"@, "directory_id"@) {
        Some(v) => v,
        None => sha256_hex_of(project_path),
    }
    &&& s.name@ == value_or(text, "session"@, "name"@, "restored-session"@)
    &&& s.project_name@ == value_or(text, "session"@, "project_name"@, "workspace"@)
    &&& s.project_path@ == project_path
    &&& s.working_directory@ == value_or(text, "session"@, "working_directory"@, project_path)
    &&& s.model@ == value_or(text, "session"@, "model"@, "deepseek-v4-flash"@)
    &&& s.approval_mode == approval_mode_of(
        value_or(text, "session"@, "approval_mode"@, "AskUser"@),
    )
    &&& s.status == session_status_of(value_or(text, "session"@, "status"@, "selected"@))
    &&& s.stream_output == bool_or(text, "session"@, "stream_output"@, true)
    &&& s.round == int_or(text, "state"@, "round"@, 0)
    &&& s.is_finished == bool_or(text, "state"@, "is_finished"@, false)
    &&& s.session_dir@ == session_dir
    &&& s.snapshot_version == int_or(text, "snapshot"@, "version"@, 1)
    &&& s.last_round_no == int_or(text, "snapshot"@, "last_round_no"@, 0)
    &&& s.content_hash@ == value_or(text, "snapshot"@, "content_hash"@, Seq::empty())
    &&& s.system_prompt@ == value_or(text, "session"@, "system_prompt"@, Seq::empty())
    &&& s.created_at@ == value_or(text, "meta"@, "created_at"@, now)
    &&& s.updated_at@ == value_or(text, "meta"@, "updated_at"@, now)
}

/// The characters of an optional string slice.
pub open spec fn opt_str_view(o: Option<&str>) -> Option<Seq<char>> {
    match o {
        Some(n) => Some(n@),
        None => None,
    }
}

/// The error for an unreadable snapshot.
pub open spec fn snapshot_error_message(path: Seq<char>, e: Seq<char>) -> Seq<char> {
    "读取 session.ini 失败："@ + path + "，原因："@ + load_error_text(path, e)
}

/// The session read back from the snapshot `text` (see `session_from_text`), or the error
/// for an unreadable snapshot at `path`.
pub fn session_from_ini_at(
    text: &str,
    path: &str,
    session_dir: &str,
    dir_name: Option<&str>,
    now: &str,
) -> (res: Result<Session, String>)
    ensures
        match ini_error_of(text@) {
            Some(e) => res matches Err(msg) && msg@ == snapshot_error_message(path@, e),
            None => res matches Ok(s) && session_from_text(
                text@,
                session_dir@,
                opt_str_view(dir_name),
                now@,
                s,
            ),
        },
{
    if let Some(e) = ini_error(text) {
        let mut v = to_chars("读取 session.ini 失败：");
        extend_str(&mut v, path);
        extend_str(&mut v, "，原因：");
        let mut why = to_chars("couldn't read ");
        extend_str(&mut why, path);
        extend_str(&mut why, ": ");
        extend_str(&mut why, e.as_str());
        let why = from_chars(&why);
        extend_str(&mut v, why.as_str());
        return Err(from_chars(&v));
    }
    proof {
        reveal_strlit("");
        assert(""@ =~= Seq::<char>::empty());
    }
    let project_path = get_or(text, "session", "project_path", "");
    let id = match ini_get(text, "session", "id") {
        Some(v) => v,
        None => match dir_name {
            Some(n) => owned(n),
            None => owned(""),
        },
    };
    let directory_id = match ini_get(text, "session", "directory_id") {
        Some(v) => v,
        None => sha256_hex(project_path.as_str()),
    };
    let name = get_or(text, "session", "name", "restored-session");
    let project_name = get_or(text, "session", "project_name", "workspace");
    let working_directory = get_or(text, "session", "working_directory", project_path.as_str());
    let model = get_or(text, "session", "model", "deepseek-v4-flash");
    let mode_text = get_or(text, "session", "approval_mode", "AskUser");
    let status_text = get_or(text, "session", "status", "selected");
    let session = Session {
        id,
        directory_id,
        name,
        project_name,
        working_directory,
        model,
        approval_mode: ApprovalMode::from_str(mode_text.as_str()),
        status: SessionStatus::from_str(status_text.as_str()),
        stream_output: bool_get_or(text, "session", "stream_output", true),
        round: int_get_or(text, "state", "round", 0),
        is_finished: bool_get_or(text, "state", "is_finished", false),
        session_dir: owned(session_dir),
        snapshot_version: int_get_or(text, "snapshot", "version", 1),
        last_round_no: int_get_or(text, "snapshot", "last_round_no", 0),
        content_hash: get_or(text, "snapshot", "content_hash", ""),
        system_prompt: get_or(text, "session", "system_prompt", ""),
        created_at: get_or(text, "meta", "created_at", now),
        updated_at: get_or(text, "meta", "updated_at", now),
        project_path,
    };
    assert(session.id@ == match ini_value_of(text@, "session"@, "id"@) {
        Some(v) => v,
        None => match opt_str_view(dir_name) {
            Some(n) => n,
            None => Seq::<char>::empty(),
        },
    });
    assert(session.approval_mode == approval_mode_of(
        value_or(text@, "session"@, "approval_mode"@, "AskUser"@),
    ));
    assert(session.status == session_status_of(value_or(text@, "session"@, "status"@, "selected"@)));
    Ok(session)
}

/// The session read back from the snapshot `text` (see `session_from_ini_at`), timed now.
pub fn session_from_ini(text: &str, path: &str, session_dir: &str, dir_name: Option<&str>) -> (res:
    Result<Session, String>)
    ensures
        ini_error_of(text@) matches Some(e) ==> (res matches Err(msg) && msg@
            == snapshot_error_message(path@, e)),
        ini_error_of(text@) is None ==> (res matches Ok(s) && exists|now: Seq<char>|
            utc_timestamp(now) && #[trigger] session_from_text(
                text@,
                session_dir@,
                opt_str_view(dir_name),
                now,
                s,
            )),
{
    let now = now_rfc3339();
    session_from_ini_at(text, path, session_dir, dir_name, now.as_str())
}

/// The keys of a session's snapshot.
pub open spec fn snapshot_keys() -> Set<Seq<char>> {
    set![
        "id"@,
        "directory_id"@,
        "name"@,
        "project_name"@,
        "project_path"@,
        "working_directory"@,
        "model"@,
        "approval_mode"@,
        "status"@,
        "system_prompt"@,
        "stream_output"@,
        "round"@,
        "is_finished"@,
        "version"@,
        "last_round_no"@,
        "content_hash"@,
        "created_at"@,
        "updated_at"@,
    ]
}

/// Whether the snapshot reads back each text of a session by its first line (`read_value`):
/// each text's later lines are inert among the snapshot's keys (see `value_readable`). A text
/// on one line has no later lines.
pub open spec fn session_texts_readable(s: Session) -> bool {
    &&& value_readable(s.id@, snapshot_keys())
    &&& value_readable(s.directory_id@, snapshot_keys())
    &&& value_readable(s.name@, snapshot_keys())
    &&& value_readable(s.project_name@, snapshot_keys())
    &&& value_readable(s.project_path@, snapshot_keys())
    &&& value_readable(s.working_directory@, snapshot_keys())
    &&& value_readable(s.model@, snapshot_keys())
    &&& value_readable(s.system_prompt@, snapshot_keys())
    &&& value_readable(s.content_hash@, snapshot_keys())
    &&& value_readable(s.created_at@, snapshot_keys())
    &&& value_readable(s.updated_at@, snapshot_keys())
}

/// Whether the text reads back the snapshot of `s`: it reads without error and each section
/// and key of the snapshot gives its value as `read_value` reads it.
pub open spec fn snapshot_reads_back(text: Seq<char>, s: Session) -> bool {
    &&& ini_error_of(text) is None
    &&& forall|i: int|
        0 <= i < session_entries(s).len() ==> ini_value_of(
            text,
            (#[trigger] session_entries(s)[i]).0,
            session_entries(s)[i].1,
        ) == Some(read_value(session_entries(s)[i].2))
}

/// A text without `;` or `#` from position `i` on has no comment there.
proof fn lemma_no_comment(v: Seq<char>, i: int)
    requires
        0 <= i,
        forall|j: int| i <= j < v.len() ==> !line_breaking(#[trigger] v[j]),
    ensures
        comment_from(v, i) is None,
    decreases v.len() - i,
{
    if i < v.len() {
        assert(!line_breaking(v[i]));
        lemma_no_comment(v, i + 1);
    }
}

/// A plain value is its own first line, reads back as it is, and is readable whatever the
/// other keys are.
pub proof fn lemma_plain_readable(v: Seq<char>, keys: Set<Seq<char>>)
    requires
        plain_value(v),
    ensures
        head_line(v) == v,
        read_value(v) == v,
        tail_lines(v).len() == 0,
        value_readable(v, keys),
{
    lemma_find_from_bounds(v, seq!['\n'], 0);
    if index_of(v, seq!['\n']) is Some {
        let i = index_of(v, seq!['\n'])->0;
        assert(v.subrange(i, i + 1) == seq!['\n']);
        assert(v[i] == v.subrange(i, i + 1)[0]);
        assert(line_breaking(v[i]));
    }
    lemma_no_comment(v, 0);
}

/// A value readable among some keys is readable among fewer.
pub proof fn lemma_readable_fewer(v: Seq<char>, keys: Set<Seq<char>>, fewer: Set<Seq<char>>)
    requires
        value_readable(v, keys),
        fewer.subset_of(keys),
    ensures
        value_readable(v, fewer),
{
    assert forall|j: int| 0 <= j < tail_lines(v).len() implies inert_line(
        #[trigger] tail_lines(v)[j],
        fewer,
    ) by {
        assert(inert_line(tail_lines(v)[j], keys));
    }
}

/// A text without whitespace or line-breaking characters is a plain value.
pub proof fn lemma_plain_value(v: Seq<char>)
    requires
        forall|i: int| 0 <= i < v.len() ==> !line_breaking(#[trigger] v[i]) && !is_ws(v[i]),
    ensures
        plain_value(v),
{
    if v.len() > 0 {
        assert(!is_ws(v[0]));
        assert(!is_ws(v[v.len() - 1]));
    }
    assert(leading_ws(v) == 0);
    let rest = v.subrange(0, v.len() as int);
    assert(rest =~= v);
    assert(trailing_ws(rest) == 0);
    assert(trimmed(v) =~= v);
}

/// An RFC 3339 UTC time is a plain value.
pub proof fn lemma_timestamp_plain(t: Seq<char>)
    requires
        utc_timestamp(t),
    ensures
        plain_value(t),
{
    assert forall|i: int| 0 <= i < t.len() implies !line_breaking(#[trigger] t[i]) && !is_ws(
        t[i],
    ) by {
        assert(timestamp_char(t[i]));
    }
    lemma_plain_value(t);
}

/// The decimal text of `n` is made of digits, not empty, and reads back as `n`.
pub proof fn lemma_decimal_reads(n: nat)
    ensures
        decimal(n).len() > 0,
        forall|i: int| 0 <= i < decimal(n).len() ==> '0' <= #[trigger] decimal(n)[i] <= '9',
        digits_int(decimal(n)) == n,
    decreases n,
{
    let t = decimal(n);
    let c = digit_char(n % 10);
    assert(c as int == '0' as int + n % 10);
    if n < 10 {
        assert(t.drop_last() =~= Seq::<char>::empty());
        assert(t.last() == c);
        assert(digits_int(Seq::<char>::empty()) == 0);
        assert(digits_int(t) == digits_int(t.drop_last()) * 10 + (c as int - '0' as int));
    } else {
        lemma_decimal_reads(n / 10);
        let d = decimal(n / 10);
        assert(t == d.push(c));
        assert(t.drop_last() =~= d);
        assert(t.last() == c);
        assert(digits_int(t) == digits_int(d) * 10 + (c as int - '0' as int));
        assert((n / 10) * 10 + n % 10 == n) by (nonlinear_arith);
        assert forall|i: int| 0 <= i < t.len() implies '0' <= #[trigger] t[i] <= '9' by {
            if i < d.len() {
                assert(t[i] == d[i]);
            }
        }
    }
}

/// The text of a signed number is a plain value that reads back as the number.
pub proof fn lemma_signed_decimal_reads(n: i64)
    ensures
        i64_of(signed_decimal(n as int)) == Some(n),
        plain_value(signed_decimal(n as int)),
{
    let t = signed_decimal(n as int);
    if n < 0 {
        let m = (-(n as int)) as nat;
        lemma_decimal_reads(m);
        let d = decimal(m);
        assert(t == seq!['-'] + d);
        assert(t.drop_first() =~= d);
        assert(t[0] == '-');
        assert forall|i: int| 0 <= i < t.len() implies !line_breaking(#[trigger] t[i]) && !is_ws(
            t[i],
        ) by {
            if i > 0 {
                assert(t[i] == d[i - 1]);
            }
        }
    } else {
        lemma_decimal_reads(n as nat);
        assert(t == decimal(n as nat));
        assert('0' <= t[0] <= '9');
        assert forall|i: int| 0 <= i < t.len() implies !line_breaking(#[trigger] t[i]) && !is_ws(
            t[i],
        ) by {
            assert('0' <= t[i] <= '9');
        }
    }
    lemma_plain_value(t);
}

/// The texts of booleans, approval modes and statuses are plain values that read back as
/// what they name.
pub proof fn lemma_names_read_back(b: bool, m: ApprovalMode, st: SessionStatus)
    ensures
        plain_value(bool_text(b)),
        bool_of(bool_text(b)) == Some(b),
        plain_value(approval_mode_name(m)),
        approval_mode_of(approval_mode_name(m)) == m,
        plain_value(session_status_name(st)),
        session_status_of(session_status_name(st)) == st,
{
    reveal_strlit("true");
    reveal_strlit("false");
    reveal_strlit("AskUser");
    reveal_strlit("AutoApproveSafe");
    reveal_strlit("FullAccess");
    reveal_strlit("unselected");
    reveal_strlit("selected");
    reveal_strlit("running");
    reveal_strlit("cancelled");
    reveal_strlit("finished");
    assert("selected"@[0] != "finished"@[0]);
    lemma_plain_value(bool_text(b));
    lemma_plain_value(approval_mode_name(m));
    lemma_plain_value(session_status_name(st));
}

/// The snapshot entries of any session have plain names, none in `default`, and no two
/// name the same section and key.
pub proof fn lemma_session_entries_names(s: Session)
    ensures
        entries_names_plain(session_entries(s)),
        entries_ascii(session_entries(s)),
        forall|i: int, j: int|
            0 <= i < j < session_entries(s).len() ==> (
            #[trigger] session_entries(s)[i].0,
            session_entries(s)[i].1,
        ) != (#[trigger] session_entries(s)[j].0, session_entries(s)[j].1),
{
    reveal_strlit("session");
    reveal_strlit("state");
    reveal_strlit("snapshot");
    reveal_strlit("meta");
    reveal_strlit("default");
    reveal_strlit("id");
    reveal_strlit("directory_id");
    reveal_strlit("name");
    reveal_strlit("project_name");
    reveal_strlit("project_path");
    reveal_strlit("working_directory");
    reveal_strlit("model");
    reveal_strlit("approval_mode");
    reveal_strlit("status");
    reveal_strlit("system_prompt");
    reveal_strlit("stream_output");
    reveal_strlit("round");
    reveal_strlit("is_finished");
    reveal_strlit("version");
    reveal_strlit("last_round_no");
    reveal_strlit("content_hash");
    reveal_strlit("created_at");
    reveal_strlit("updated_at");
    assert("session"@[0] != "default"@[0]);
    assert("directory_id"@[0] != "project_name"@[0]);
    assert("project_name"@[8] != "project_path"@[8]);
    assert("approval_mode"@[0] != "system_prompt"@[0]);
    assert("approval_mode"@[0] != "stream_output"@[0]);
    assert("system_prompt"@[1] != "stream_output"@[1]);
    assert("created_at"@[0] != "updated_at"@[0]);
    lemma_names_read_back(s.stream_output, s.approval_mode, s.status);
    lemma_names_read_back(s.is_finished, s.approval_mode, s.status);
    lemma_signed_decimal_reads(s.round);
    lemma_signed_decimal_reads(s.snapshot_version);
    lemma_signed_decimal_reads(s.last_round_no);
    let e = session_entries(s);
    assert forall|i: int| 0 <= i < e.len() implies {
        &&& plain_name(#[trigger] e[i].0)
        &&& plain_name(e[i].1)
        &&& e[i].0 != "default"@
    } by {}
    lemma_entries_map_names(e);
}

/// The snapshot entries of a session with readable texts are readable, and no two name the
/// same section and key.
pub proof fn lemma_session_entries_readable(s: Session)
    requires
        session_texts_readable(s),
    ensures
        entries_readable(session_entries(s)),
        forall|i: int, j: int|
            0 <= i < j < session_entries(s).len() ==> (
            #[trigger] session_entries(s)[i].0,
            session_entries(s)[i].1,
        ) != (#[trigger] session_entries(s)[j].0, session_entries(s)[j].1),
{
    lemma_session_entries_names(s);
    reveal_strlit("id");
    reveal_strlit("directory_id");
    reveal_strlit("name");
    reveal_strlit("project_name");
    reveal_strlit("project_path");
    reveal_strlit("working_directory");
    reveal_strlit("model");
    reveal_strlit("approval_mode");
    reveal_strlit("status");
    reveal_strlit("system_prompt");
    reveal_strlit("stream_output");
    reveal_strlit("round");
    reveal_strlit("is_finished");
    reveal_strlit("version");
    reveal_strlit("last_round_no");
    reveal_strlit("content_hash");
    reveal_strlit("created_at");
    reveal_strlit("updated_at");
    lemma_names_read_back(s.stream_output, s.approval_mode, s.status);
    lemma_names_read_back(s.is_finished, s.approval_mode, s.status);
    lemma_signed_decimal_reads(s.round);
    lemma_signed_decimal_reads(s.snapshot_version);
    lemma_signed_decimal_reads(s.last_round_no);
    let e = session_entries(s);
    lemma_entries_map_names(e);
    let m = entries_map(e);
    assert forall|i: int| 0 <= i < e.len() implies snapshot_keys().contains(#[trigger] e[i].1) by {}
    assert forall|i: int| 0 <= i < e.len() implies value_readable(
        #[trigger] e[i].2,
        section_keys(m, e[i].0),
    ) by {
        let sk = section_keys(m, e[i].0);
        assert forall|k: Seq<char>| sk.contains(k) implies snapshot_keys().contains(k) by {
            assert(m.contains_key((e[i].0, k)));
            let j = choose|j: int|
                0 <= j < e.len() && (#[trigger] e[j].0, e[j].1) == (e[i].0, k) && m[(e[i].0, k)]
                    == Some(e[j].2);
            assert(snapshot_keys().contains(e[j].1));
        }
        assert(sk.subset_of(snapshot_keys()));
        if plain_value(e[i].2) {
            lemma_plain_readable(e[i].2, sk);
        } else {
            assert(value_readable(e[i].2, snapshot_keys()));
            lemma_readable_fewer(e[i].2, snapshot_keys(), sk);
        }
    }
}

/// The snapshot text of a session (see `session_ini_entries` and `render_ini`): what
/// configparser writes for its entries, in some order. When the later lines of its texts are
/// inert (`session_texts_readable`), it reads without error and gives each entry's value as
/// `read_value` reads it, so every plain field reads back as it is.
pub fn render_session_ini(session: &Session) -> (res: String)
    ensures
        written_ini(
            entries_map(session_entries(*session)),
            entries_sections(session_entries(*session)),
            res@,
        ),
        session_texts_readable(*session) ==> snapshot_reads_back(res@, *session),
{
    let entries = session_ini_entries(session);
    let text = render_ini(&entries);
    proof {
        lemma_session_entries_names(*session);
        if session_texts_readable(*session) {
            let e = session_entries(*session);
            lemma_session_entries_readable(*session);
            assert forall|i: int| 0 <= i < e.len() implies ini_value_of(
                text@,
                (#[trigger] e[i]).0,
                e[i].1,
            ) == Some(read_value(e[i].2)) by {
                assert forall|j: int| i < j < e.len() implies (#[trigger] e[j].0, e[j].1) != (
                    e[i].0,
                    e[i].1,
                ) by {
                    assert((e[i].0, e[i].1) != (e[j].0, e[j].1));
                }
                lemma_entries_map_at(e, i);
                assert(entries_map(e).contains_key((e[i].0, e[i].1)));
            }
        }
    }
    text
}

} // verus!
