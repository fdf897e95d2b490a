//! Web search results: the items of a Bing RSS feed, their XML tags and entities.

use vstd::prelude::*;

use crate::domain::opt_view;
use crate::handling::occurrences;
use crate::text::{
    decimal, lemma_replace_absent, lemma_absent_first_char, lemma_first_occurrence, contains_seq,
    char_count, concat2, concat3, extend_str, find_chars_from, lemma_found_at, from_chars, index_of, lemma_find_from_bounds, owned, replace_all,
    replace_str, sub_vec, to_chars,
};

verus! {

/// One search hit.
#[derive(Debug)]
pub struct SearchResultItem {
    /// Title.
    pub title: String,
    /// Link.
    pub link: String,
    /// Snippet.
    pub snippet: String,
}

/// The opening tag `<tag>`.
pub open spec fn open_tag(tag: Seq<char>) -> Seq<char> {
    "<"@ + tag + ">"@
}

/// The closing tag `</tag>`.
pub open spec fn close_tag(tag: Seq<char>) -> Seq<char> {
    "</"@ + tag + ">"@
}

/// The text between the first `<tag>` of `block` and the first `</tag>` after it.
pub open spec fn xml_tag_content(block: Seq<char>, tag: Seq<char>) -> Option<Seq<char>> {
    match index_of(block, open_tag(tag)) {
        None => None,
        Some(start) => {
            let tail = block.skip(start + open_tag(tag).len());
            match index_of(tail, close_tag(tag)) {
                None => None,
                Some(end) => Some(tail.take(end)),
            }
        },
    }
}

/// `v` with the five XML entities decoded and CDATA markers removed, in this order.
pub open spec fn xml_decoded(v: Seq<char>) -> Seq<char> {
    let a = replace_all(v, "&amp;"@, "&"@);
    let b = replace_all(a, "&lt;"@, "<"@);
    let c = replace_all(b, "&gt;"@, ">"@);
    let d = replace_all(c, "&quot;"@, "\""@);
    let e = replace_all(d, "&#39;"@, "'"@);
    let f = replace_all(e, "<![CDATA["@, ""@);
    replace_all(f, "]]>"@, ""@)
}

/// The decoded content of a tag of an item, empty when the tag is missing.
pub open spec fn item_field(block: Seq<char>, tag: Seq<char>) -> Seq<char> {
    match xml_tag_content(block, tag) {
        Some(v) => xml_decoded(v),
        None => Seq::empty(),
    }
}

/// Title, link and snippet of one `<item>` block.
pub open spec fn rss_item(block: Seq<char>) -> (Seq<char>, Seq<char>, Seq<char>) {
    (item_field(block, "title"@), item_field(block, "link"@), item_field(block, "description"@))
}

/// The items of a feed: each text between an `<item>` and the next `</item>`, up to the
/// first `<item>` that is not closed.
pub open spec fn rss_items(s: Seq<char>) -> Seq<(Seq<char>, Seq<char>, Seq<char>)>
    decreases s.len(),
{
    match index_of(s, "<item>"@) {
        None => Seq::empty(),
        Some(st) => {
            let after = s.skip(st + "<item>"@.len());
            match index_of(after, "</item>"@) {
                None => Seq::empty(),
                Some(e) => {
                    proof {
                        lemma_find_from_bounds(s, "<item>"@, 0);
                        lemma_find_from_bounds(after, "</item>"@, 0);
                        reveal_strlit("<item>");
                        reveal_strlit("</item>");
                    }
                    seq![rss_item(after.take(e))] + rss_items(after.skip(e + "</item>"@.len()))
                },
            }
        },
    }
}

/// The contents of search hits as plain values.
pub open spec fn items_view(v: Seq<SearchResultItem>) -> Seq<(Seq<char>, Seq<char>, Seq<char>)> {
    v.map_values(|i: SearchResultItem| (i.title@, i.link@, i.snippet@))
}

/// The text between the first `<tag>` of `block` and the first `</tag>` after it.
pub fn extract_xml_tag(block: &str, tag: &str) -> (res: Option<String>)
    ensures
        opt_view(res) == xml_tag_content(block@, tag@),
{
    let open = concat3("<", tag, ">");
    let close = concat3("</", tag, ">");
    let bv = to_chars(block);
    let ov = to_chars(open.as_str());
    let cv = to_chars(close.as_str());
    match find_chars_from(&bv, &ov, 0) {
        None => None,
        Some(start) => {
            proof {
                lemma_found_at(bv@, ov@, 0, start as int);
                assert(start + ov@.len() <= bv@.len());
                assert(ov@.len() == ov.len());
            }
            assert(start + ov.len() <= bv.len());
            let lo: usize = start + ov.len();
            let tail = sub_vec(&bv, lo, bv.len());
            assert(tail@ =~= bv@.skip(start + ov@.len()));
            match find_chars_from(&tail, &cv, 0) {
                None => None,
                Some(end) => {
                    proof {
                        lemma_found_at(tail@, cv@, 0, end as int);
                    }
                    let body = sub_vec(&tail, 0, end);
                    assert(body@ =~= tail@.take(end as int));
                    Some(from_chars(&body))
                },
            }
        },
    }
}

/// Decodes `&amp;`, `&lt;`, `&gt;`, `&quot;` and `&#39;` and drops CDATA markers.
pub fn decode_xml_entities(value: &str) -> (res: String)
    ensures
        res@ == xml_decoded(value@),
{
    proof {
        reveal_strlit("&amp;");
        reveal_strlit("&lt;");
        reveal_strlit("&gt;");
        reveal_strlit("&quot;");
        reveal_strlit("&#39;");
        reveal_strlit("<![CDATA[");
        reveal_strlit("]]>");
    }
    let a = replace_str(value, "&amp;", "&");
    let b = replace_str(a.as_str(), "&lt;", "<");
    let c = replace_str(b.as_str(), "&gt;", ">");
    let d = replace_str(c.as_str(), "&quot;", "\"");
    let e = replace_str(d.as_str(), "&#39;", "'");
    let f = replace_str(e.as_str(), "<![CDATA[", "");
    replace_str(f.as_str(), "]]>", "")
}

/// The decoded content of a tag of an item block, empty when missing.
fn item_field_of(block: &str, tag: &str) -> (res: String)
    ensures
        res@ == item_field(block@, tag@),
{
    match extract_xml_tag(block, tag) {
        Some(v) => decode_xml_entities(v.as_str()),
        None => {
            proof {
                reveal_strlit("");
            }
            owned("")
        },
    }
}

/// The items of a Bing RSS search feed.
pub fn parse_bing_rss(content: &str) -> (res: Vec<SearchResultItem>)
    ensures
        items_view(res@) == rss_items(content@),
{
    let mut items: Vec<SearchResultItem> = Vec::new();
    let mut rest = to_chars(content);
    let item_open = to_chars("<item>");
    let item_close = to_chars("</item>");
    proof {
        reveal_strlit("<item>");
        reveal_strlit("</item>");
        assert(items_view(items@) + rss_items(rest@) =~= rss_items(content@));
    }
    loop
        invariant
            item_open@ == "<item>"@,
            item_close@ == "</item>"@,
            items_view(items@) + rss_items(rest@) == rss_items(content@),
        ensures
            items_view(items@) == rss_items(content@),
        decreases rest.len(),
    {
        let ghost s = rest@;
        match find_chars_from(&rest, &item_open, 0) {
            None => {
                assert(items_view(items@) + rss_items(rest@) =~= items_view(items@));
                break ;
            },
            Some(st) => {
                proof {
                    lemma_found_at(rest@, item_open@, 0, st as int);
                }
                let after = sub_vec(&rest, st + item_open.len(), rest.len());
                assert(after@ =~= s.skip(st + "<item>"@.len()));
                match find_chars_from(&after, &item_close, 0) {
                    None => {
                        assert(items_view(items@) + rss_items(rest@) =~= items_view(items@));
                        break ;
                    },
                    Some(end) => {
                        proof {
                            lemma_found_at(after@, item_close@, 0, end as int);
                        }
                        let block_chars = sub_vec(&after, 0, end);
                        assert(block_chars@ =~= after@.take(end as int));
                        let block = from_chars(&block_chars);
                        let title = item_field_of(block.as_str(), "title");
                        let link = item_field_of(block.as_str(), "link");
                        let snippet = item_field_of(block.as_str(), "description");
                        let ghost old_items = items@;
                        items.push(SearchResultItem { title, link, snippet });
                        let next = sub_vec(&after, end + item_close.len(), after.len());
                        proof {
                            assert(next@ =~= after@.skip(end + "</item>"@.len()));
                            assert(after@.len() == s.len() - st - item_open@.len());
                            assert(next@.len() == after@.len() - end - item_close@.len());
                            reveal_strlit("</item>");
                            assert(next@.len() < s.len());
                            assert(rss_items(s) == seq![rss_item(after@.take(end as int))]
                                + rss_items(next@));
                            assert(items_view(items@) =~= items_view(old_items).push(
                                rss_item(after@.take(end as int)),
                            ));
                            assert(items_view(old_items) + (seq![
                                rss_item(after@.take(end as int)),
                            ] + rss_items(next@)) =~= items_view(items@) + rss_items(next@));
                        }
                        rest = next;
                    },
                }
            },
        }
    }
    items
}

/// The anchors of an HTML document (`scraper`: `Html::parse_document`, then `a` elements in
/// document order): the text fragments of each and its `href`, if any.
pub uninterp spec fn anchors_of(html: Seq<char>) -> Seq<(Seq<Seq<char>>, Option<Seq<char>>)>;

/// The text fragments of the elements that a CSS selector matches in an HTML document
/// (`scraper`), in document order, or the selector's parse error.
pub uninterp spec fn selected_texts_of(html: Seq<char>, selector: Seq<char>) -> Result<
    Seq<Seq<char>>,
    Seq<char>,
>;

/// The error of parsing a URL (`url::Url::parse`), if it does not parse.
pub uninterp spec fn url_parse_error_of(url: Seq<char>) -> Option<Seq<char>>;

/// A reference resolved against a base URL (`url::Url::parse`, then `Url::join`), or the
/// error of joining.
pub uninterp spec fn url_join_of(base: Seq<char>, href: Seq<char>) -> Result<Seq<char>, Seq<char>>;

/// An anchor as plain values.
pub struct Anchor {
    /// Text fragments.
    pub texts: Vec<String>,
    /// `href`, if any.
    pub href: Option<String>,
}

/// The anchors of an HTML document (see `anchors_of`).
#[verifier::external_body]
fn html_anchors(html: &str) -> (res: Vec<Anchor>)
    ensures
        res@.len() == anchors_of(html@).len(),
        forall|i: int|
            0 <= i < res@.len() ==> crate::text::texts(#[trigger] res@[i].texts@) == anchors_of(
                html@,
            )[i].0 && opt_view(res@[i].href) == anchors_of(html@)[i].1,
{
    let document = scraper::Html::parse_document(html);
    let selector = scraper::Selector::parse("a").unwrap();
    document.select(&selector).map(|link| Anchor {
        texts: link.text().map(|t| t.to_string()).collect(),
        href: link.value().attr("href").map(|h| h.to_string()),
    }).collect()
}

/// The text fragments that `selector` selects in `html` (see `selected_texts_of`).
#[verifier::external_body]
fn selected_texts(html: &str, selector: &str) -> (res: Result<Vec<String>, String>)
    ensures
        match selected_texts_of(html@, selector@) {
            Ok(t) => res matches Ok(v) && crate::text::texts(v@) == t,
            Err(e) => res matches Err(m) && m@ == e,
        },
{
    let document = scraper::Html::parse_document(html);
    match scraper::Selector::parse(selector) {
        Ok(sel) => Ok(document.select(&sel).flat_map(|node| node.text()).map(|t| t.to_string()).collect()),
        Err(error) => Err(error.to_string()),
    }
}

/// The error of parsing `url` (see `url_parse_error_of`).
#[verifier::external_body]
fn url_parse_error(url: &str) -> (res: Option<String>)
    ensures
        opt_view(res) == url_parse_error_of(url@),
{
    reqwest::Url::parse(url).err().map(|e| e.to_string())
}

/// `href` resolved against `base` (see `url_join_of`).
#[verifier::external_body]
fn url_join(base: &str, href: &str) -> (res: Result<String, String>)
    ensures
        match url_join_of(base@, href@) {
            Ok(u) => res matches Ok(v) && v@ == u,
            Err(e) => res matches Err(m) && m@ == e,
        },
{
    match reqwest::Url::parse(base) {
        Ok(b) => b.join(href).map(|u| u.to_string()).map_err(|e| e.to_string()),
        Err(e) => Err(e.to_string()),
    }
}

/// The parts joined by `sep`.
pub open spec fn join_with(parts: Seq<Seq<char>>, sep: Seq<char>) -> Seq<char>
    decreases parts.len(),
{
    if parts.len() == 0 {
        Seq::empty()
    } else if parts.len() == 1 {
        parts[0]
    } else {
        join_with(parts.drop_last(), sep) + sep + parts.last()
    }
}

/// The parts joined by `sep`.
pub fn join_strings(parts: &Vec<String>, sep: &str) -> (res: String)
    ensures
        res@ == join_with(crate::text::texts(parts@), sep@),
{
    let ghost ps = crate::text::texts(parts@);
    let mut v: Vec<char> = Vec::new();
    let mut i: usize = 0;
    while i < parts.len()
        invariant
            i <= parts@.len(),
            ps == crate::text::texts(parts@),
            v@ == join_with(ps.take(i as int), sep@),
        decreases parts.len() - i,
    {
        if i > 0 {
            extend_str(&mut v, sep);
        }
        extend_str(&mut v, parts[i].as_str());
        proof {
            let t = ps.take(i + 1);
            assert(t.drop_last() =~= ps.take(i as int));
            assert(t.last() == parts@[i as int]@);
            if i == 0 {
                assert(ps.take(0) =~= Seq::<Seq<char>>::empty());
                assert(t.len() == 1);
            }
        }
        i += 1;
    }
    assert(ps.take(parts@.len() as int) =~= ps);
    from_chars(&v)
}

/// Text with its whitespace runs collapsed to single spaces and trimmed.
pub open spec fn collapsed(s: Seq<char>) -> Seq<char> {
    join_with(crate::cli::words(s), " "@)
}

/// The link that `find_link_by_text` picks: the first anchor whose text (fragments joined by
/// spaces) contains `text_contains` and that has an `href`, resolved against the page.
pub open spec fn link_from(
    base_url: Seq<char>,
    anchors: Seq<(Seq<Seq<char>>, Option<Seq<char>>)>,
    text_contains: Seq<char>,
    i: int,
) -> Result<Option<Seq<char>>, Seq<char>>
    decreases anchors.len() - i,
{
    if i < 0 || i >= anchors.len() {
        Ok(None)
    } else if crate::text::contains_seq(join_with(anchors[i].0, " "@), text_contains) && anchors[i].1 is Some {
        match url_join_of(base_url, anchors[i].1->0) {
            Ok(u) => Ok(Some(u)),
            Err(_) => Err("拼接链接失败："@ + anchors[i].1->0),
        }
    } else {
        link_from(base_url, anchors, text_contains, i + 1)
    }
}

/// The anchors as plain values.
pub open spec fn anchors_view(v: Seq<Anchor>) -> Seq<(Seq<Seq<char>>, Option<Seq<char>>)> {
    v.map_values(|a: Anchor| (crate::text::texts(a.texts@), opt_view(a.href)))
}

/// The position of the first anchor at or after `i` whose text (fragments joined by spaces)
/// contains `text_contains` and that has an `href`.
pub open spec fn link_index(
    anchors: Seq<(Seq<Seq<char>>, Option<Seq<char>>)>,
    text_contains: Seq<char>,
    i: int,
) -> Option<int>
    decreases anchors.len() - i,
{
    if i < 0 || i >= anchors.len() {
        None
    } else if crate::text::contains_seq(join_with(anchors[i].0, " "@), text_contains) && anchors[i].1 is Some {
        Some(i)
    } else {
        link_index(anchors, text_contains, i + 1)
    }
}

proof fn lemma_link_index(
    base_url: Seq<char>,
    anchors: Seq<(Seq<Seq<char>>, Option<Seq<char>>)>,
    text_contains: Seq<char>,
    i: int,
)
    requires
        0 <= i,
    ensures
        link_from(base_url, anchors, text_contains, i) == match link_index(anchors, text_contains, i) {
            None => Ok(None),
            Some(k) => link_joined(anchors[k].1->0, url_join_of(base_url, anchors[k].1->0)),
        },
        link_index(anchors, text_contains, i) matches Some(k) ==> i <= k < anchors.len()
            && anchors[k].1 is Some,
    decreases anchors.len() - i,
{
    if i < anchors.len() {
        lemma_link_index(base_url, anchors, text_contains, i + 1);
    }
}

/// What a link `href` comes to when joining it to the page's URL gave `joined`.
pub open spec fn link_joined(href: Seq<char>, joined: Result<Seq<char>, Seq<char>>) -> Result<
    Option<Seq<char>>,
    Seq<char>,
> {
    match joined {
        Ok(u) => Ok(Some(u)),
        Err(_) => Err("拼接链接失败："@ + href),
    }
}

/// The position of the first anchor whose text contains `text_contains` and that has an
/// `href` (see `link_index`).
pub fn matching_link(anchors: &Vec<Anchor>, text_contains: &str) -> (res: Option<usize>)
    ensures
        match link_index(anchors_view(anchors@), text_contains@, 0) {
            None => res is None,
            Some(k) => res == Some(k as usize),
        },
{
    let ghost a = anchors_view(anchors@);
    let mut i: usize = 0;
    while i < anchors.len()
        invariant
            i <= anchors@.len(),
            a == anchors_view(anchors@),
            link_index(a, text_contains@, 0) == link_index(a, text_contains@, i as int),
        decreases anchors.len() - i,
    {
        let anchor = &anchors[i];
        assert(a[i as int] == (crate::text::texts(anchors@[i as int].texts@), opt_view(anchors@[i as int].href)));
        let text = join_strings(&anchor.texts, " ");
        if crate::text::contains_str(text.as_str(), text_contains) && anchor.href.is_some() {
            return Some(i);
        }
        i += 1;
    }
    None
}

/// What the link `href` comes to when joining it to the page's URL gave `joined` (see
/// `link_joined`).
pub fn link_result(href: &str, joined: Result<String, String>) -> (res: Result<Option<String>, String>)
    ensures
        match link_joined(href@, match joined {
            Ok(u) => Ok(u@),
            Err(e) => Err(e@),
        }) {
            Ok(Some(u)) => res matches Ok(Some(v)) && v@ == u,
            Ok(None) => res matches Ok(None),
            Err(e) => res matches Err(m) && m@ == e,
        },
{
    match joined {
        Ok(u) => Ok(Some(u)),
        Err(_) => Err(concat2("拼接链接失败：", href)),
    }
}

/// The first link of the page `html` at `base_url` whose text contains `text_contains`,
/// resolved against the page; an unparsable page URL or link is an error.
pub fn find_link_by_text(base_url: &str, html: &str, text_contains: &str) -> (res: Result<
    Option<String>,
    String,
>)
    ensures
        match url_parse_error_of(base_url@) {
            Some(_) => res matches Err(m) && m@ == "解析当前 URL 失败："@ + base_url@,
            None => match link_from(base_url@, anchors_of(html@), text_contains@, 0) {
                Ok(Some(u)) => res matches Ok(Some(v)) && v@ == u,
                Ok(None) => res matches Ok(None),
                Err(e) => res matches Err(m) && m@ == e,
            },
        },
{
    let anchors = html_anchors(html);
    if url_parse_error(base_url).is_some() {
        return Err(concat2("解析当前 URL 失败：", base_url));
    }
    proof {
        assert(anchors_view(anchors@) =~= anchors_of(html@));
        lemma_link_index(base_url@, anchors_of(html@), text_contains@, 0);
    }
    match matching_link(&anchors, text_contains) {
        None => Ok(None),
        Some(k) => {
            let href = match &anchors[k].href {
                Some(h) => h.as_str(),
                None => "",
            };
            let joined = url_join(base_url, href);
            link_result(href, joined)
        },
    }
}

/// The text of what `selector_text` selects in `html`, whitespace collapsed; a bad selector
/// is an error that names it.
pub fn extract_text_by_selector(html: &str, selector_text: &str) -> (res: Result<String, String>)
    ensures
        match selected_texts_of(html@, selector_text@) {
            Ok(t) => res matches Ok(v) && v@ == collapsed(join_with(t, " "@)),
            Err(e) => res matches Err(m) && m@ == "解析 CSS 选择器失败："@ + e + "，选择器："@
                + selector_text@,
        },
{
    match selected_texts(html, selector_text) {
        Ok(texts) => {
            let joined = join_strings(&texts, " ");
            let words = crate::cli::split_words(joined.as_str());
            Ok(join_strings(&words, " "))
        },
        Err(e) => {
            let mut v = to_chars("解析 CSS 选择器失败：");
            extend_str(&mut v, e.as_str());
            extend_str(&mut v, "，选择器：");
            extend_str(&mut v, selector_text);
            Err(from_chars(&v))
        },
    }
}

/// The visible text of a page: the text its `body` selects, whitespace collapsed, or nothing
/// when the selector is refused.
pub open spec fn visible_text_of(html: Seq<char>) -> Seq<char> {
    match selected_texts_of(html, "body"@) {
        Ok(t) => collapsed(join_with(t, " "@)),
        Err(_) => Seq::empty(),
    }
}

/// The visible text of a page (see `visible_text_of`).
pub fn extract_visible_text(html: &str) -> (res: String)
    ensures
        res@ == visible_text_of(html@),
{
    proof {
        reveal_strlit("");
    }
    match extract_text_by_selector(html, "body") {
        Ok(t) => t,
        Err(_) => owned(""),
    }
}

/// Fails unless a page has been opened.
pub fn ensure_page_loaded(current_url: &str) -> (res: Result<(), String>)
    ensures
        res is Ok <==> current_url@.len() > 0,
        res matches Err(msg) ==> msg@ == "当前还没有打开任何网页，请先执行 open 步骤"@,
{
    if char_count(current_url) == 0 {
        Err(owned("当前还没有打开任何网页，请先执行 open 步骤"))
    } else {
        Ok(())
    }
}


/// A step of a `web_run` request.
#[derive(Debug)]
pub enum WebStep {
    /// Open the page at `url`.
    Open { url: String },
    /// Follow the first link whose text contains `text_contains`.
    Click { text_contains: String },
    /// Count the occurrences of `pattern` in the page's visible text.
    Find { pattern: String },
    /// The text that `selector` selects, or the page's visible text.
    ExtractText { selector: Option<String> },
}

/// What a step reports.
#[derive(Debug, PartialEq, Eq)]
pub struct WebStepReport {
    /// The kind of step.
    pub step: String,
    /// The page it ended on.
    pub url: String,
    /// Whether it found what it looked for.
    pub success: bool,
    /// What it gives.
    pub output: String,
}

/// What to do for a step of `web_run`.
#[derive(Debug, PartialEq, Eq)]
pub enum WebAction {
    /// Fetch this page; it becomes the current one, and `web_fetched` reports the step.
    Fetch(String),
    /// The step is done and reports this.
    Report(WebStepReport),
    /// The request ends with this error.
    Fail(String),
}

/// The refusal of a `web_run` request without steps.
pub fn check_web_steps(count: usize) -> (res: Result<(), String>)
    ensures
        res is Ok <==> count > 0,
        res matches Err(m) ==> m@ == "web_run 至少需要一个步骤"@,
{
    if count == 0 {
        Err(owned("web_run 至少需要一个步骤"))
    } else {
        Ok(())
    }
}

/// The error when no page has been opened.
pub open spec fn not_loaded_message() -> Seq<char> {
    "当前还没有打开任何网页，请先执行 open 步骤"@
}

/// What the step `step` does on the current page `url` with text `html`: `open` fetches its
/// URL; the others fail while no page is open; `click` fetches the link `find_link_by_text`
/// finds, and fails when there is none or it cannot be resolved; `find` reports how often the
/// pattern occurs in the visible text; `extract_text` reports the selected or visible text.
pub fn web_step(url: &str, html: &str, step: &WebStep) -> (res: WebAction)
    ensures
        match step {
            WebStep::Open { url: u } => res == WebAction::Fetch(*u),
            _ => url@.len() == 0 ==> (res matches WebAction::Fail(m) && m@ == not_loaded_message()),
        },
        url@.len() > 0 ==> match step {
            WebStep::Open { .. } => true,
            WebStep::Click { text_contains } => match url_parse_error_of(url@) {
                Some(_) => res matches WebAction::Fail(m) && m@ == "解析当前 URL 失败："@ + url@,
                None => match link_from(url@, anchors_of(html@), text_contains@, 0) {
                    Ok(Some(u)) => res matches WebAction::Fetch(v) && v@ == u,
                    Ok(None) => res matches WebAction::Fail(m) && m@ == "未找到包含指定文本的链接："@
                        + text_contains@,
                    Err(e) => res matches WebAction::Fail(m) && m@ == e,
                },
            },
            WebStep::Find { pattern } => if visible_text_of(html@).len() < usize::MAX {
                res matches WebAction::Report(r) && r.step@ == "find"@ && r.url@ == url@
                    && r.success == (occurrences(visible_text_of(html@), pattern@) > 0) && r.output@
                    == "匹配次数："@ + decimal(occurrences(visible_text_of(html@), pattern@))
            } else {
                res matches WebAction::Fail(m) && m@ == "网页正文过长："@ + url@
            },
            WebStep::ExtractText { selector } => match selector {
                Some(sel) => match selected_texts_of(html@, sel@) {
                    Ok(t) => res matches WebAction::Report(r) && r.step@ == "extract_text"@ && r.url@
                        == url@ && r.success && r.output@ == collapsed(join_with(t, " "@)),
                    Err(e) => res matches WebAction::Fail(m) && m@ == "解析 CSS 选择器失败："@ + e
                        + "，选择器："@ + sel@,
                },
                None => res matches WebAction::Report(r) && r.step@ == "extract_text"@ && r.url@
                    == url@ && r.success && r.output@ == visible_text_of(html@),
            },
        },
{
    match step {
        WebStep::Open { url: u } => {
            return WebAction::Fetch(u.clone());
        },
        _ => {},
    }
    if let Err(m) = ensure_page_loaded(url) {
        return WebAction::Fail(m);
    }
    match step {
        WebStep::Open { url: u } => WebAction::Fetch(u.clone()),
        WebStep::Click { text_contains } => match find_link_by_text(url, html, text_contains.as_str()) {
            Ok(Some(u)) => WebAction::Fetch(u),
            Ok(None) => WebAction::Fail(concat2("未找到包含指定文本的链接：", text_contains.as_str())),
            Err(m) => WebAction::Fail(m),
        },
        WebStep::Find { pattern } => {
            let text = extract_visible_text(html);
            if char_count(text.as_str()) == usize::MAX {
                return WebAction::Fail(concat2("网页正文过长：", url));
            }
            let hits = crate::handling::count_occurrences(text.as_str(), pattern.as_str());
            let output = concat2("匹配次数：", crate::text::decimal_text(hits as u64).as_str());
            WebAction::Report(WebStepReport { step: owned("find"), url: owned(url), success: hits > 0, output })
        },
        WebStep::ExtractText { selector } => {
            let text = match selector {
                Some(sel) => match extract_text_by_selector(html, sel.as_str()) {
                    Ok(t) => t,
                    Err(m) => {
                        return WebAction::Fail(m);
                    },
                },
                None => extract_visible_text(html),
            };
            WebAction::Report(WebStepReport { step: owned("extract_text"), url: owned(url), success: true, output: text })
        },
    }
}

/// What an `open` or `click` step reports once its page, now at `url`, has been fetched.
pub fn web_fetched(step: &WebStep, url: String) -> (res: WebStepReport)
    requires
        step is Open || step is Click,
    ensures
        res.url == url,
        res.success,
        match step {
            WebStep::Click { text_contains } => res.step@ == "click"@ && res.output@
                == "已点击并打开链接，匹配文本："@ + text_contains@,
            _ => res.step@ == "open"@ && res.output@ == "已打开页面"@,
        },
{
    match step {
        WebStep::Click { text_contains } => WebStepReport {
            step: owned("click"),
            url,
            success: true,
            output: concat2("已点击并打开链接，匹配文本：", text_contains.as_str()),
        },
        _ => WebStepReport { step: owned("open"), url, success: true, output: owned("已打开页面") },
    }
}


/// An open or closing tag of a name without `<` has `<` only as its first character.
proof fn lemma_tag_chars(t: Seq<char>)
    requires
        forall|i: int| 0 <= i < t.len() ==> t[i] != '<',
    ensures
        open_tag(t).len() > 0,
        open_tag(t)[0] == '<',
        forall|m: int| 0 < m < open_tag(t).len() ==> #[trigger] open_tag(t)[m] != open_tag(t)[0],
        close_tag(t).len() > 0,
        close_tag(t)[0] == '<',
        forall|m: int| 0 < m < close_tag(t).len() ==> #[trigger] close_tag(t)[m] != close_tag(t)[0],
{
    reveal_strlit("<");
    reveal_strlit(">");
    reveal_strlit("</");
    let o = open_tag(t);
    let c = close_tag(t);
    assert forall|m: int| 0 < m < o.len() implies #[trigger] o[m] != o[0] by {
        if m <= t.len() {
            assert(o[m] == t[m - 1]);
        } else {
            assert(o[m] == '>');
        }
    }
    assert forall|m: int| 0 < m < c.len() implies #[trigger] c[m] != c[0] by {
        if m == 1 {
            assert(c[m] == '/');
        } else if m <= t.len() + 1 {
            assert(c[m] == t[m - 2]);
        } else {
            assert(c[m] == '>');
        }
    }
}

/// The decoding leaves a text without `&`, `<` or `]` as it is.
proof fn lemma_decoded_plain(d: Seq<char>)
    requires
        forall|i: int| 0 <= i < d.len() ==> d[i] != '&' && d[i] != '<' && d[i] != ']',
    ensures
        xml_decoded(d) == d,
{
    reveal_strlit("&amp;");
    reveal_strlit("&lt;");
    reveal_strlit("&gt;");
    reveal_strlit("&quot;");
    reveal_strlit("&#39;");
    reveal_strlit("<![CDATA[");
    reveal_strlit("]]>");
    lemma_replace_absent(d, "&amp;"@, "&"@);
    lemma_replace_absent(d, "&lt;"@, "<"@);
    lemma_replace_absent(d, "&gt;"@, ">"@);
    lemma_replace_absent(d, "&quot;"@, "\""@);
    lemma_replace_absent(d, "&#39;"@, "'"@);
    lemma_replace_absent(d, "<![CDATA["@, ""@);
    lemma_replace_absent(d, "]]>"@, ""@);
}

/// In a block whose first `<tag>` (for a tag name without `<`) is followed by a text `d`
/// without `&`, `<` or `]` and then `</tag>`, the tag's field is `d`.
pub proof fn lemma_item_field_at(a: Seq<char>, t: Seq<char>, d: Seq<char>, b: Seq<char>)
    requires
        forall|i: int| 0 <= i < t.len() ==> t[i] != '<',
        !contains_seq(a, open_tag(t)),
        forall|i: int| 0 <= i < d.len() ==> d[i] != '&' && d[i] != '<' && d[i] != ']',
    ensures
        item_field(a + open_tag(t) + d + close_tag(t) + b, t) == d,
{
    lemma_tag_chars(t);
    let o = open_tag(t);
    let c = close_tag(t);
    let block = a + o + d + c + b;
    assert(block =~= a + o + (d + c + b));
    lemma_first_occurrence(a, o, d + c + b);
    let tail = block.skip((a.len() + o.len()) as int);
    assert(tail =~= d + c + b);
    lemma_absent_first_char(d, c);
    lemma_first_occurrence(d, c, b);
    assert(tail.take(d.len() as int) =~= d);
    lemma_decoded_plain(d);
}

} // verus!
