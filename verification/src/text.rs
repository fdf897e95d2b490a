//! Character-level text helpers with exact specifications.

use vstd::prelude::*;

verus! {

broadcast use vstd::string::group_string_axioms;

/// The three characters appended to a shortened text.
pub open spec fn ellipsis() -> Seq<char> {
    seq!['.', '.', '.']
}

/// The first `n` characters of `s`, or all of `s` when it is shorter.
pub open spec fn take_upto(s: Seq<char>, n: int) -> Seq<char> {
    if n < s.len() {
        s.take(n)
    } else {
        s
    }
}

/// `s` shortened to `limit` characters followed by "..." when it is longer than `limit`.
pub open spec fn ellipsis_truncated(s: Seq<char>, limit: int) -> Seq<char> {
    if s.len() > limit {
        s.take(limit) + ellipsis()
    } else {
        s
    }
}

/// The characters of `s` from position `start` on, at most `len` of them.
pub open spec fn char_slice(s: Seq<char>, start: int, len: int) -> Seq<char> {
    let lo = if start < s.len() { start } else { s.len() as int };
    let hi = if lo + len < s.len() { lo + len } else { s.len() as int };
    s.subrange(lo, hi)
}

/// `k` occurs in `s` starting at position `i`.
pub open spec fn occurs_at(s: Seq<char>, k: Seq<char>, i: int) -> bool {
    0 <= i && i + k.len() <= s.len() && s.subrange(i, i + k.len()) == k
}

/// The first position at or after `from` where `k` occurs in `s`.
pub open spec fn find_from(s: Seq<char>, k: Seq<char>, from: int) -> Option<int>
    decreases s.len() + 1 - from,
{
    if from < 0 || from + k.len() > s.len() {
        None
    } else if occurs_at(s, k, from) {
        Some(from)
    } else {
        find_from(s, k, from + 1)
    }
}

/// `s` with every non-overlapping occurrence of `p`, found from the left, replaced by `r`.
pub open spec fn replace_all(s: Seq<char>, p: Seq<char>, r: Seq<char>) -> Seq<char>
    decreases s.len(),
{
    if s.len() == 0 || p.len() == 0 {
        s
    } else if has_prefix(s, p) {
        r + replace_all(s.skip(p.len() as int), p, r)
    } else {
        seq![s[0]] + replace_all(s.skip(1), p, r)
    }
}

/// Where `find_from` finds `k`, it occurs there, at or after `from`.
pub proof fn lemma_find_from_bounds(s: Seq<char>, k: Seq<char>, from: int)
    ensures
        find_from(s, k, from) matches Some(i) ==> from <= i && i + k.len() <= s.len()
            && occurs_at(s, k, i),
        0 <= from && find_from(s, k, from) is None ==> forall|j: int|
            from <= j && j + k.len() <= s.len() ==> !occurs_at(s, k, j),
    decreases s.len() + 1 - from,
{
    if from < 0 || from + k.len() > s.len() {
    } else if occurs_at(s, k, from) {
    } else {
        lemma_find_from_bounds(s, k, from + 1);
    }
}

/// A position found by `find_from` lies at or after `from` and `k` occurs there.
pub proof fn lemma_found_at(s: Seq<char>, k: Seq<char>, from: int, i: int)
    requires
        find_from(s, k, from) == Some(i),
    ensures
        from <= i,
        i + k.len() <= s.len(),
        occurs_at(s, k, i),
{
    lemma_find_from_bounds(s, k, from);
}

/// `l` without a final carriage return.
pub open spec fn strip_cr(l: Seq<char>) -> Seq<char> {
    if l.len() > 0 && l.last() == '\r' {
        l.drop_last()
    } else {
        l
    }
}

/// The lines of `s` (std's `str::lines`): split after each line feed, which is dropped with a
/// carriage return right before it; a final line without a line feed keeps its characters.
pub open spec fn text_lines(s: Seq<char>) -> Seq<Seq<char>>
    decreases s.len(),
{
    if s.len() == 0 {
        Seq::empty()
    } else {
        match index_of(s, seq!['\n']) {
            Some(i) => {
                proof {
                    lemma_find_from_bounds(s, seq!['\n'], 0);
                }
                seq![strip_cr(s.take(i))] + text_lines(s.skip(i + 1))
            },
            None => seq![s],
        }
    }
}

/// Searching from `j` in `s` finds what searching from `j - pos` in `s` without its first
/// `pos` characters finds, shifted by `pos`.
pub proof fn lemma_find_from_skip(s: Seq<char>, k: Seq<char>, pos: int, j: int)
    requires
        0 <= pos <= j,
        pos <= s.len(),
    ensures
        find_from(s, k, j) == match find_from(s.skip(pos), k, j - pos) {
            Some(x) => Some(x + pos),
            None => None::<int>,
        },
    decreases s.len() + 1 - j,
{
    let t = s.skip(pos);
    if j + k.len() > s.len() {
    } else {
        assert(s.subrange(j, j + k.len()) =~= t.subrange(j - pos, j - pos + k.len()));
        if !occurs_at(s, k, j) {
            lemma_find_from_skip(s, k, pos, j + 1);
        }
    }
}

/// The first position where `k` occurs in `s`.
pub open spec fn index_of(s: Seq<char>, k: Seq<char>) -> Option<int> {
    find_from(s, k, 0)
}

/// `k` occurs somewhere in `s`.
pub open spec fn contains_seq(s: Seq<char>, k: Seq<char>) -> bool {
    index_of(s, k) is Some
}

/// `p` is a prefix of `s`.
pub open spec fn has_prefix(s: Seq<char>, p: Seq<char>) -> bool {
    p.len() <= s.len() && s.take(p.len() as int) == p
}

/// ASCII upper-case letters become lower case; every other character is kept.
pub open spec fn ascii_lower_char(c: char) -> char {
    if 'A' <= c && c <= 'Z' {
        ((c as u32) + 32) as char
    } else {
        c
    }
}

/// The ASCII lower-case form of `s`.
pub open spec fn ascii_lower(s: Seq<char>) -> Seq<char> {
    s.map_values(|c: char| ascii_lower_char(c))
}

/// The characters of the Unicode `White_Space` property.
pub open spec fn is_ws(c: char) -> bool {
    ||| ('\u{9}' <= c && c <= '\u{d}')
    ||| c == ' '
    ||| c == '\u{85}'
    ||| c == '\u{a0}'
    ||| c == '\u{1680}'
    ||| ('\u{2000}' <= c && c <= '\u{200a}')
    ||| c == '\u{2028}'
    ||| c == '\u{2029}'
    ||| c == '\u{202f}'
    ||| c == '\u{205f}'
    ||| c == '\u{3000}'
}

/// Number of leading whitespace characters of `s`.
pub open spec fn leading_ws(s: Seq<char>) -> nat
    decreases s.len(),
{
    if s.len() > 0 && is_ws(s[0]) {
        1 + leading_ws(s.drop_first())
    } else {
        0
    }
}

/// Number of trailing whitespace characters of `s`.
pub open spec fn trailing_ws(s: Seq<char>) -> nat
    decreases s.len(),
{
    if s.len() > 0 && is_ws(s.last()) {
        1 + trailing_ws(s.drop_last())
    } else {
        0
    }
}

/// `s` without leading and trailing whitespace.
pub open spec fn trimmed(s: Seq<char>) -> Seq<char> {
    let lead = leading_ws(s);
    let rest = s.subrange(lead as int, s.len() as int);
    rest.subrange(0, rest.len() - trailing_ws(rest))
}

/// The decimal digits of `n`, most significant first.
pub open spec fn decimal(n: nat) -> Seq<char>
    decreases n,
{
    if n < 10 {
        seq![digit_char(n)]
    } else {
        decimal(n / 10).push(digit_char(n % 10))
    }
}

/// The character of a single decimal digit.
pub open spec fn digit_char(d: nat) -> char {
    (('0' as u32) + d) as char
}

/// The decimal text of a signed integer, with a leading '-' when it is negative.
pub open spec fn signed_decimal(n: int) -> Seq<char> {
    if n < 0 {
        seq!['-'] + decimal((-n) as nat)
    } else {
        decimal(n as nat)
    }
}

/// Collects the characters of `s` in order.
pub fn to_chars(s: &str) -> (res: Vec<char>)
    ensures
        res@ == s@,
{
    let mut res: Vec<char> = Vec::new();
    for c in it: s.chars()
        invariant
            res@ == it.seq().take(it.index()),
    {
        res.push(c);
    }
    res
}

/// Builds a string from a sequence of characters (std's `String::from_iter`).
#[verifier::external_body]
pub fn from_chars(chars: &Vec<char>) -> (res: String)
    ensures
        res@ == chars@,
{
    chars.iter().collect::<String>()
}

/// Copies a string slice into an owned string.
pub fn owned(s: &str) -> (res: String)
    ensures
        res@ == s@,
{
    s.to_string()
}

/// The characters `v[lo..hi]`.
pub fn sub_vec(v: &Vec<char>, lo: usize, hi: usize) -> (res: Vec<char>)
    requires
        lo <= hi <= v.len(),
    ensures
        res@ == v@.subrange(lo as int, hi as int),
{
    let mut res: Vec<char> = Vec::new();
    let mut i: usize = lo;
    while i < hi
        invariant
            lo <= i <= hi <= v.len(),
            res@ == v@.subrange(lo as int, i as int),
        decreases hi - i,
    {
        res.push(v[i]);
        i += 1;
    }
    res
}

/// Appends every character of `tail` to `v`.
pub fn extend_chars(v: &mut Vec<char>, tail: &Vec<char>)
    ensures
        final(v)@ == old(v)@ + tail@,
{
    let mut i: usize = 0;
    while i < tail.len()
        invariant
            i <= tail.len(),
            v@ == old(v)@ + tail@.take(i as int),
        decreases tail.len() - i,
    {
        v.push(tail[i]);
        i += 1;
        assert(tail@.take(i as int) == tail@.take(i - 1).push(tail@[i - 1]));
    }
    assert(tail@.take(tail.len() as int) == tail@);
}

/// Appends every character of `s` to `v`.
pub fn extend_str(v: &mut Vec<char>, s: &str)
    ensures
        final(v)@ == old(v)@ + s@,
{
    let cs = to_chars(s);
    extend_chars(v, &cs);
}

/// Concatenation of two strings.
pub fn concat2(a: &str, b: &str) -> (res: String)
    ensures
        res@ == a@ + b@,
{
    let mut v = to_chars(a);
    extend_str(&mut v, b);
    from_chars(&v)
}

/// Concatenation of three strings.
pub fn concat3(a: &str, b: &str, c: &str) -> (res: String)
    ensures
        res@ == a@ + b@ + c@,
{
    let mut v = to_chars(a);
    extend_str(&mut v, b);
    extend_str(&mut v, c);
    from_chars(&v)
}

/// Number of characters of `s`.
pub fn char_count(s: &str) -> (res: usize)
    ensures
        res == s@.len(),
{
    to_chars(s).len()
}

/// The first `n` characters of `s` (all of `s` when it is shorter).
pub fn take_chars(s: &str, n: usize) -> (res: String)
    ensures
        res@ == take_upto(s@, n as int),
{
    let v = to_chars(s);
    if n < v.len() {
        from_chars(&sub_vec(&v, 0, n))
    } else {
        from_chars(&v)
    }
}

/// Shortens `content` to `limit` characters and marks the cut with "...".
pub fn truncate_ellipsis(content: &str, limit: usize) -> (res: String)
    ensures
        res@ == ellipsis_truncated(content@, limit as int),
{
    let v = to_chars(content);
    if v.len() > limit {
        let mut out = sub_vec(&v, 0, limit);
        out.push('.');
        out.push('.');
        out.push('.');
        assert(out@ == v@.take(limit as int) + ellipsis());
        from_chars(&out)
    } else {
        from_chars(&v)
    }
}

/// At most `length_chars` characters of `content`, starting at character `start_char`.
pub fn slice_by_chars(content: &str, start_char: usize, length_chars: usize) -> (res: String)
    ensures
        res@ == char_slice(content@, start_char as int, length_chars as int),
{
    let v = to_chars(content);
    let lo: usize = if start_char < v.len() { start_char } else { v.len() };
    let hi: usize = if length_chars < v.len() - lo { lo + length_chars } else { v.len() };
    from_chars(&sub_vec(&v, lo, hi))
}

/// `content` cut to `max_chars` characters when a limit is given.
pub fn truncate_chars(content: &str, max_chars: Option<usize>) -> (res: String)
    ensures
        res@ == match max_chars {
            Some(limit) => take_upto(content@, limit as int),
            None => content@,
        },
{
    match max_chars {
        Some(limit) => take_chars(content, limit),
        None => owned(content),
    }
}

/// Whether `k` occurs in `s` at position `i` (both given as characters).
pub fn match_at(s: &Vec<char>, k: &Vec<char>, i: usize) -> (res: bool)
    requires
        i + k.len() <= s.len(),
    ensures
        res == occurs_at(s@, k@, i as int),
{
    let mut j: usize = 0;
    while j < k.len()
        invariant
            j <= k.len(),
            i + k.len() <= s.len(),
            forall|t: int| 0 <= t < j ==> s@[i + t] == k@[t],
        decreases k.len() - j,
    {
        if s[i + j] != k[j] {
            assert(s@.subrange(i as int, i + k.len())[j as int] != k@[j as int]);
            return false;
        }
        j += 1;
    }
    assert(s@.subrange(i as int, i + k.len()) =~= k@);
    true
}

/// The first position at or after `from` where `k` occurs in `s`.
pub fn find_chars_from(s: &Vec<char>, k: &Vec<char>, from: usize) -> (res: Option<usize>)
    ensures
        res matches Some(i) ==> find_from(s@, k@, from as int) == Some(i as int),
        res is None ==> find_from(s@, k@, from as int) is None,
{
    if k.len() > s.len() {
        proof { lemma_find_from_none(s@, k@, from as int); }
        return None;
    }
    if k.len() == 0 {
        if from <= s.len() {
            assert(s@.subrange(from as int, from as int) =~= k@);
            return Some(from);
        }
        return None;
    }
    let mut i: usize = from;
    while i <= s.len() - k.len()
        invariant
            from <= i,
            1 <= k.len() <= s.len(),
            find_from(s@, k@, from as int) == find_from(s@, k@, i as int),
        decreases s.len() - i,
    {
        if match_at(s, k, i) {
            return Some(i);
        }
        i += 1;
    }
    None
}

proof fn lemma_find_from_none(s: Seq<char>, k: Seq<char>, from: int)
    requires
        k.len() > s.len(),
    ensures
        find_from(s, k, from) is None,
{
}

/// The first position where `k` occurs in `s`.
pub fn find_str(s: &str, k: &str) -> (res: Option<usize>)
    ensures
        res matches Some(i) ==> index_of(s@, k@) == Some(i as int),
        res is None ==> index_of(s@, k@) is None,
{
    let sv = to_chars(s);
    let kv = to_chars(k);
    find_chars_from(&sv, &kv, 0)
}

/// Whether `k` occurs in `s`.
pub fn contains_str(s: &str, k: &str) -> (res: bool)
    ensures
        res == contains_seq(s@, k@),
{
    find_str(s, k).is_some()
}

/// `s` with every occurrence of `p` replaced by `r` (std's `str::replace` for a non-empty pattern).
pub fn replace_str(s: &str, p: &str, r: &str) -> (res: String)
    requires
        p@.len() > 0,
    ensures
        res@ == replace_all(s@, p@, r@),
{
    let sv = to_chars(s);
    let pv = to_chars(p);
    let rv = to_chars(r);
    let mut out: Vec<char> = Vec::new();
    let mut i: usize = 0;
    assert(sv@.skip(0) =~= sv@);
    assert(out@ + replace_all(sv@, pv@, rv@) =~= replace_all(sv@, pv@, rv@));
    while i < sv.len()
        invariant
            i <= sv.len(),
            pv@.len() > 0,
            sv@ == s@,
            pv@ == p@,
            rv@ == r@,
            out@ + replace_all(sv@.skip(i as int), pv@, rv@) == replace_all(s@, p@, r@),
        decreases sv.len() - i,
    {
        let ghost rest = sv@.skip(i as int);
        if pv.len() <= sv.len() - i && match_at(&sv, &pv, i) {
            proof {
                assert(rest.take(pv@.len() as int) =~= sv@.subrange(i as int, i + pv@.len()));
                assert(rest.skip(pv@.len() as int) =~= sv@.skip(i + pv@.len()));
                assert(out@ + (rv@ + replace_all(sv@.skip(i + pv@.len()), pv@, rv@)) =~= (out@
                    + rv@) + replace_all(sv@.skip(i + pv@.len()), pv@, rv@));
            }
            extend_chars(&mut out, &rv);
            i = i + pv.len();
        } else {
            proof {
                if i + pv@.len() <= sv@.len() {
                    assert(rest.take(pv@.len() as int) =~= sv@.subrange(i as int, i + pv@.len()));
                }
                assert(rest.skip(1) =~= sv@.skip(i + 1));
                assert(rest[0] == sv@[i as int]);
                assert(out@ + (seq![sv@[i as int]] + replace_all(sv@.skip(i + 1), pv@, rv@))
                    =~= out@.push(sv@[i as int]) + replace_all(sv@.skip(i + 1), pv@, rv@));
            }
            out.push(sv[i]);
            i = i + 1;
        }
    }
    proof {
        assert(sv@.skip(sv@.len() as int) =~= Seq::<char>::empty());
        assert(out@ + Seq::<char>::empty() =~= out@);
    }
    from_chars(&out)
}

/// Whether `s` starts with `p`.
pub fn starts_with_str(s: &str, p: &str) -> (res: bool)
    ensures
        res == has_prefix(s@, p@),
{
    let sv = to_chars(s);
    let pv = to_chars(p);
    if pv.len() > sv.len() {
        return false;
    }
    let r = match_at(&sv, &pv, 0);
    assert(sv@.subrange(0, pv.len() as int) == sv@.take(pv.len() as int));
    r
}

/// ASCII lower-casing of one character.
pub fn lower_char(c: char) -> (res: char)
    ensures
        res == ascii_lower_char(c),
{
    if 'A' <= c && c <= 'Z' {
        let b: u8 = (c as u32) as u8;
        assert(b as u32 == c as u32);
        (b + 32) as char
    } else {
        c
    }
}

/// The ASCII lower-case form of `s` (std's `str::to_ascii_lowercase`).
pub fn to_ascii_lowercase(s: &str) -> (res: String)
    ensures
        res@ == ascii_lower(s@),
{
    let v = to_chars(s);
    let mut out: Vec<char> = Vec::new();
    let mut i: usize = 0;
    while i < v.len()
        invariant
            i <= v.len(),
            out@ == ascii_lower(v@.take(i as int)),
        decreases v.len() - i,
    {
        out.push(lower_char(v[i]));
        i += 1;
        assert(ascii_lower(v@.take(i as int)) =~= ascii_lower(v@.take(i - 1)).push(ascii_lower_char(v@[i - 1])));
    }
    assert(v@.take(v.len() as int) == v@);
    from_chars(&out)
}

/// Whether `c` has the Unicode `White_Space` property (std's `char::is_whitespace`).
pub fn is_whitespace_char(c: char) -> (res: bool)
    ensures
        res == is_ws(c),
{
    ('\u{9}' <= c && c <= '\u{d}') || c == ' ' || c == '\u{85}' || c == '\u{a0}' || c == '\u{1680}'
        || ('\u{2000}' <= c && c <= '\u{200a}') || c == '\u{2028}' || c == '\u{2029}' || c
        == '\u{202f}' || c == '\u{205f}' || c == '\u{3000}'
}

/// `s` without leading and trailing whitespace (std's `str::trim`).
pub fn trim_str(s: &str) -> (res: String)
    ensures
        res@ == trimmed(s@),
{
    let v = to_chars(s);
    let mut lo: usize = 0;
    assert(v@.skip(0) =~= v@);
    while lo < v.len() && is_whitespace_char(v[lo])
        invariant
            lo <= v.len(),
            v@ == s@,
            leading_ws(v@) == lo + leading_ws(v@.skip(lo as int)),
        decreases v.len() - lo,
    {
        assert(v@.skip(lo as int).drop_first() =~= v@.skip(lo + 1));
        lo += 1;
    }
    assert(leading_ws(v@.skip(lo as int)) == 0);
    let rest = sub_vec(&v, lo, v.len());
    assert(rest@ =~= v@.subrange(lo as int, v@.len() as int));
    let mut hi: usize = rest.len();
    assert(rest@.take(hi as int) =~= rest@);
    while hi > 0 && is_whitespace_char(rest[hi - 1])
        invariant
            hi <= rest.len(),
            trailing_ws(rest@) == (rest.len() - hi) + trailing_ws(rest@.take(hi as int)),
        decreases hi,
    {
        assert(rest@.take(hi as int).drop_last() =~= rest@.take(hi - 1));
        hi -= 1;
    }
    assert(trailing_ws(rest@.take(hi as int)) == 0);
    let out = sub_vec(&rest, 0, hi);
    assert(out@ =~= rest@.subrange(0, rest@.len() - trailing_ws(rest@)));
    from_chars(&out)
}

/// The decimal text of `n`.
pub fn decimal_text(n: u64) -> (res: String)
    ensures
        res@ == decimal(n as nat),
{
    let mut suffix: Vec<char> = Vec::new();
    let mut m: u64 = n;
    assert(decimal(n as nat) =~= decimal(m as nat) + suffix@);
    while m >= 10
        invariant
            decimal(n as nat) == decimal(m as nat) + suffix@,
        decreases m,
    {
        let d: u8 = (m % 10) as u8;
        let c: char = (48u8 + d) as char;
        assert(c == digit_char((m % 10) as nat));
        let ghost old_suffix = suffix@;
        suffix.insert(0, c);
        assert(decimal(m as nat) == decimal((m / 10) as nat).push(c));
        assert(decimal((m / 10) as nat).push(c) + old_suffix =~= decimal((m / 10) as nat)
            + suffix@);
        m = m / 10;
    }
    let d: u8 = m as u8;
    let c: char = (48u8 + d) as char;
    assert(c == digit_char(m as nat));
    suffix.insert(0, c);
    assert(decimal(m as nat) =~= seq![c]);
    from_chars(&suffix)
}

/// The decimal text of `n`, with a leading '-' when it is negative.
pub fn signed_decimal_text(n: i64) -> (res: String)
    ensures
        res@ == signed_decimal(n as int),
{
    if n < 0 {
        let m: u64 = if n == i64::MIN {
            9223372036854775808u64
        } else {
            (-n) as u64
        };
        assert(m as int == -(n as int));
        let digits = decimal_text(m);
        proof {
            reveal_strlit("-");
            assert("-"@ =~= seq!['-']);
        }
        concat2("-", digits.as_str())
    } else {
        decimal_text(n as u64)
    }
}

/// The texts of a list of strings.
pub open spec fn texts(v: Seq<String>) -> Seq<Seq<char>> {
    v.map_values(|x: String| x@)
}

/// The lines of `s` (std's `str::lines`).
pub fn lines_of(s: &str) -> (res: Vec<String>)
    ensures
        texts(res@) == text_lines(s@),
{
    let sv = to_chars(s);
    let nl: Vec<char> = vec!['\n'];
    let mut out: Vec<String> = Vec::new();
    let mut pos: usize = 0;
    assert(sv@.skip(0) =~= sv@);
    while pos < sv.len()
        invariant
            pos <= sv@.len(),
            sv@ == s@,
            nl@ == seq!['\n'],
            texts(out@) + text_lines(sv@.skip(pos as int)) == text_lines(s@),
        decreases sv.len() - pos,
    {
        let ghost rest = sv@.skip(pos as int);
        let ghost before = texts(out@);
        proof {
            lemma_find_from_skip(sv@, nl@, pos as int, pos as int);
            lemma_find_from_bounds(rest, nl@, 0);
            lemma_find_from_bounds(sv@, nl@, pos as int);
        }
        match find_chars_from(&sv, &nl, pos) {
            Some(i) => {
                let mut line = sub_vec(&sv, pos, i);
                if line.len() > 0 && line[line.len() - 1] == '\r' {
                    line.pop();
                }
                proof {
                    assert(rest.take(i - pos) =~= sv@.subrange(pos as int, i as int));
                    assert(line@ == strip_cr(rest.take(i - pos)));
                    assert(rest.skip(i - pos + 1) =~= sv@.skip(i + 1));
                }
                out.push(from_chars(&line));
                proof {
                    assert(texts(out@) =~= before.push(strip_cr(rest.take(i - pos))));
                    assert(before + (seq![strip_cr(rest.take(i - pos))] + text_lines(
                        sv@.skip(i + 1),
                    )) =~= texts(out@) + text_lines(sv@.skip(i + 1)));
                }
                pos = i + 1;
            },
            None => {
                let line = sub_vec(&sv, pos, sv.len());
                assert(line@ =~= rest);
                out.push(from_chars(&line));
                proof {
                    assert(texts(out@) =~= before.push(rest));
                    assert(sv@.skip(sv@.len() as int) =~= Seq::<char>::empty());
                    assert(before + seq![rest] =~= texts(out@) + text_lines(
                        sv@.skip(sv@.len() as int),
                    ));
                }
                pos = sv.len();
            },
        }
    }
    proof {
        assert(sv@.skip(pos as int) =~= Seq::<char>::empty());
        assert(texts(out@) + Seq::<Seq<char>>::empty() =~= texts(out@));
    }
    out
}

/// Whether two character vectors are equal.
pub fn chars_eq(a: &Vec<char>, b: &Vec<char>) -> (res: bool)
    ensures
        res == (a@ == b@),
{
    if a.len() != b.len() {
        return false;
    }
    let r = match_at(a, b, 0);
    assert(a@.subrange(0, b.len() as int) =~= a@);
    r
}

/// Whether two strings hold the same characters.
pub fn str_eq(a: &str, b: &str) -> (res: bool)
    ensures
        res == (a@ == b@),
{
    let av = to_chars(a);
    let bv = to_chars(b);
    chars_eq(&av, &bv)
}


/// Whether `a` comes before `b` in the order of `str`'s `Ord`, from position `i` on: the
/// first differing character decides by its code point, and a text that ends first comes
/// first (UTF-8 bytes compare in the order of their code points).
pub open spec fn text_before_from(a: Seq<char>, b: Seq<char>, i: int) -> bool
    decreases a.len() - i,
{
    if i < 0 || i >= a.len() {
        0 <= i < b.len()
    } else if i >= b.len() {
        false
    } else if a[i] != b[i] {
        (a[i] as int) < (b[i] as int)
    } else {
        text_before_from(a, b, i + 1)
    }
}

/// Whether `a` comes before `b` in the order of `str`'s `Ord`.
pub open spec fn text_before(a: Seq<char>, b: Seq<char>) -> bool {
    text_before_from(a, b, 0)
}

/// No text comes before itself, and of two texts at most one comes before the other.
pub proof fn lemma_text_before_asymmetric(a: Seq<char>, b: Seq<char>, i: int)
    requires
        0 <= i,
    ensures
        !(text_before_from(a, b, i) && text_before_from(b, a, i)),
        !text_before_from(a, a, i),
    decreases a.len() - i,
{
    if i < a.len() && i < b.len() && a[i] == b[i] {
        lemma_text_before_asymmetric(a, b, i + 1);
    }
    if i < a.len() {
        lemma_text_before_asymmetric(a, b, i + 1);
    }
}

/// The order is transitive.
pub proof fn lemma_text_before_transitive(a: Seq<char>, b: Seq<char>, c: Seq<char>, i: int)
    requires
        0 <= i,
        text_before_from(a, b, i),
        text_before_from(b, c, i),
    ensures
        text_before_from(a, c, i),
    decreases a.len() - i,
{
    if i < a.len() && i < b.len() && i < c.len() && a[i] == b[i] && b[i] == c[i] {
        lemma_text_before_transitive(a, b, c, i + 1);
    }
}

/// Whether `a` comes before `b` in the order of `str`'s `Ord`.
pub fn str_before(a: &str, b: &str) -> (res: bool)
    ensures
        res == text_before(a@, b@),
{
    let av = to_chars(a);
    let bv = to_chars(b);
    let mut i: usize = 0;
    while i < av.len() && i < bv.len() && av[i] == bv[i]
        invariant
            i <= av@.len(),
            i <= bv@.len(),
            av@ == a@,
            bv@ == b@,
            text_before(a@, b@) == text_before_from(a@, b@, i as int),
        decreases av@.len() - i,
    {
        i += 1;
    }
    if i >= av.len() {
        i < bv.len()
    } else if i >= bv.len() {
        false
    } else {
        av[i] < bv[i]
    }
}


/// Replacing a pattern whose first character `s` does not hold leaves `s` as it is.
pub proof fn lemma_replace_absent(s: Seq<char>, p: Seq<char>, r: Seq<char>)
    requires
        p.len() > 0,
        forall|i: int| 0 <= i < s.len() ==> s[i] != p[0],
    ensures
        replace_all(s, p, r) == s,
    decreases s.len(),
{
    if s.len() > 0 {
        assert(!has_prefix(s, p)) by {
            if p.len() <= s.len() {
                assert(s.take(p.len() as int)[0] == s[0]);
                if s.take(p.len() as int) == p {
                    assert(p[0] == s[0]);
                }
            }
        }
        let t = s.skip(1);
        assert forall|i: int| 0 <= i < t.len() implies t[i] != p[0] by {
            assert(t[i] == s[i + 1]);
        }
        lemma_replace_absent(t, p, r);
        assert(seq![s[0]] + t =~= s);
    }
}

/// A text none of whose characters is `k`'s first does not hold `k`.
pub proof fn lemma_absent_first_char(s: Seq<char>, k: Seq<char>)
    requires
        k.len() > 0,
        forall|i: int| 0 <= i < s.len() ==> s[i] != k[0],
    ensures
        !contains_seq(s, k),
{
    lemma_find_from_bounds(s, k, 0);
    if index_of(s, k) is Some {
        let j = index_of(s, k)->0;
        assert(s.subrange(j, j + k.len())[0] == s[j]);
    }
}

proof fn lemma_find_until(s: Seq<char>, k: Seq<char>, from: int, target: int)
    requires
        0 <= from <= target,
        forall|j: int| from <= j < target ==> !occurs_at(s, k, j),
        occurs_at(s, k, target),
    ensures
        find_from(s, k, from) == Some(target),
    decreases target - from,
{
    if from < target {
        lemma_find_until(s, k, from + 1, target);
    }
}

/// In `a + k + rest`, where `a` does not hold `k` and `k`'s first character occurs in `k`
/// only there, `k` is first found right after `a`.
pub proof fn lemma_first_occurrence(a: Seq<char>, k: Seq<char>, rest: Seq<char>)
    requires
        k.len() > 0,
        forall|m: int| 0 < m < k.len() ==> #[trigger] k[m] != k[0],
        !contains_seq(a, k),
    ensures
        index_of(a + k + rest, k) == Some(a.len() as int),
{
    let s = a + k + rest;
    lemma_find_from_bounds(a, k, 0);
    assert(s.subrange(a.len() as int, (a.len() + k.len()) as int) =~= k);
    assert forall|j: int| 0 <= j < a.len() implies !occurs_at(s, k, j) by {
        if occurs_at(s, k, j) {
            if j + k.len() <= a.len() {
                assert(a.subrange(j, j + k.len()) =~= s.subrange(j, j + k.len()));
                assert(occurs_at(a, k, j));
            } else {
                let m = a.len() - j;
                assert(s.subrange(j, j + k.len())[m] == s[a.len() as int]);
                assert(s[a.len() as int] == k[0]);
            }
        }
    }
    lemma_find_until(s, k, 0, a.len() as int);
}

} // verus!
