use dshns::web::{
    decode_xml_entities, ensure_page_loaded, extract_text_by_selector, extract_visible_text,
    extract_xml_tag, find_link_by_text, parse_bing_rss,
};

#[test]
fn should_parse_bing_rss_results() {
    let rss = r#"
        <rss>
          <channel>
            <item>
              <title>Rust language</title>
              <link>https://www.rust-lang.org/</link>
              <description>Systems programming language</description>
            </item>
          </channel>
        </rss>
        "#;
    let items = parse_bing_rss(rss);
    assert_eq!(items.len(), 1);
    assert_eq!(items[0].title, "Rust language");
    assert_eq!(items[0].link, "https://www.rust-lang.org/");
}

#[test]
fn should_find_link_and_extract_text_from_html() {
    let html = r#"
        <html>
          <body>
            <a href="/next">Go next</a>
            <div class="content">Hello Rust</div>
          </body>
        </html>
        "#;
    let url = find_link_by_text("https://example.com/start", html, "Go next")
        .expect("查找链接失败")
        .expect("未找到链接");
    assert_eq!(url, "https://example.com/next");

    let text = extract_text_by_selector(html, ".content").expect("提取文本失败");
    assert_eq!(text, "Hello Rust");
}

#[test]
fn rss_items_decode_entities_and_skip_unclosed() {
    let rss = "<item><title>A &amp; B</title><link>x</link></item><item><title>open";
    let items = parse_bing_rss(rss);
    assert_eq!(items.len(), 1);
    assert_eq!(items[0].title, "A & B");
    assert_eq!(items[0].link, "x");
    assert_eq!(items[0].snippet, "");
}

#[test]
fn rss_without_items_is_empty() {
    assert!(parse_bing_rss("<rss></rss>").is_empty());
}

#[test]
fn decodes_all_entities_in_order() {
    assert_eq!(
        decode_xml_entities("&lt;b&gt; &quot;x&quot; &#39;y&#39; <![CDATA[z]]> &amp;lt;"),
        "<b> \"x\" 'y' z <"
    );
}

#[test]
fn extracts_first_tag_content() {
    assert_eq!(extract_xml_tag("<a>1</a><a>2</a>", "a"), Some("1".to_string()));
    assert_eq!(extract_xml_tag("<a>1", "a"), None);
    assert_eq!(extract_xml_tag("<b>1</b>", "a"), None);
}

#[test]
fn page_must_be_loaded_first() {
    assert!(ensure_page_loaded("https://example.com").is_ok());
    assert_eq!(
        ensure_page_loaded("").unwrap_err(),
        "当前还没有打开任何网页，请先执行 open 步骤"
    );
}

#[test]
fn link_search_reports_bad_base_url_and_missing_links() {
    let html = "<a href=\"/x\">Alpha</a><a>Beta</a>";
    assert_eq!(
        find_link_by_text("not a url", html, "Alpha").unwrap_err(),
        "解析当前 URL 失败：not a url"
    );
    assert_eq!(find_link_by_text("https://e.com/", html, "Beta").unwrap(), None);
    assert_eq!(find_link_by_text("https://e.com/", html, "Gamma").unwrap(), None);
}

#[test]
fn bad_selector_is_named_in_the_error() {
    let err = extract_text_by_selector("<p>x</p>", "[[").unwrap_err();
    assert!(err.starts_with("解析 CSS 选择器失败："));
    assert!(err.ends_with("，选择器：[["));
}

#[test]
fn visible_text_collapses_whitespace() {
    let html = "<html><body><p>  Hello\n\n   world </p><p>again</p></body></html>";
    assert_eq!(extract_visible_text(html), "Hello world again");
}

#[test]
fn the_first_anchor_with_the_text_and_an_href_is_picked() {
    let a = |texts: &[&str], href: Option<&str>| dshns::web::Anchor {
        texts: texts.iter().map(|t| t.to_string()).collect(),
        href: href.map(|h| h.to_string()),
    };
    let anchors = vec![a(&["Next"], None), a(&["Go", "Next"], Some("/n")), a(&["Next"], Some("/m"))];
    assert_eq!(dshns::web::matching_link(&anchors, "Next"), Some(1));
    assert_eq!(dshns::web::matching_link(&anchors, "Go Next"), Some(1));
    assert_eq!(dshns::web::matching_link(&anchors, "Prev"), None);
    assert_eq!(dshns::web::link_result("/n", Ok("https://x/n".to_string())), Ok(Some("https://x/n".to_string())));
    assert_eq!(dshns::web::link_result("::", Err("bad".to_string())), Err("拼接链接失败：::".to_string()));
}

#[test]
fn web_steps_decide_what_to_fetch_and_report() {
    let html = "<html><body><p>Hello  world</p><a href=\"/next\">Next page</a></body></html>";
    assert!(dshns::web::check_web_steps(0).is_err());
    assert!(dshns::web::check_web_steps(2).is_ok());
    let open = dshns::web::WebStep::Open { url: "https://example.com/a".to_string() };
    assert_eq!(dshns::web::web_step("", "", &open), dshns::web::WebAction::Fetch("https://example.com/a".to_string()));
    let find = dshns::web::WebStep::Find { pattern: "o".to_string() };
    assert_eq!(
        dshns::web::web_step("", "", &find),
        dshns::web::WebAction::Fail("当前还没有打开任何网页，请先执行 open 步骤".to_string())
    );
    match dshns::web::web_step("https://example.com/a", html, &find) {
        dshns::web::WebAction::Report(r) => {
            assert_eq!(r.step, "find");
            assert!(r.success);
            assert_eq!(r.output, "匹配次数：2");
        }
        other => panic!("unexpected {:?}", other),
    }
    let click = dshns::web::WebStep::Click { text_contains: "Next".to_string() };
    assert_eq!(
        dshns::web::web_step("https://example.com/a", html, &click),
        dshns::web::WebAction::Fetch("https://example.com/next".to_string())
    );
    let missing = dshns::web::WebStep::Click { text_contains: "Prev".to_string() };
    assert_eq!(
        dshns::web::web_step("https://example.com/a", html, &missing),
        dshns::web::WebAction::Fail("未找到包含指定文本的链接：Prev".to_string())
    );
    let extract = dshns::web::WebStep::ExtractText { selector: None };
    match dshns::web::web_step("https://example.com/a", html, &extract) {
        dshns::web::WebAction::Report(r) => assert_eq!(r.output, "Hello world Next page"),
        other => panic!("unexpected {:?}", other),
    }
    let r = dshns::web::web_fetched(&click, "https://example.com/next".to_string());
    assert_eq!(r.step, "click");
    assert_eq!(r.output, "已点击并打开链接，匹配文本：Next");
    let r = dshns::web::web_fetched(&open, "https://example.com/a".to_string());
    assert_eq!(r.output, "已打开页面");
}
