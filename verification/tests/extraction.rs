use url_scraper::UrlScraper;

fn collect(scraper: &UrlScraper) -> Vec<(String, String)> {
    let mut out = Vec::new();
    let mut iter = scraper.into_iter();
    while let Some(pair) = iter.next() {
        out.push(pair);
    }
    out
}

#[test]
fn relative_href_resolves_against_base() {
    let scraper =
        UrlScraper::new_with_html("https://example.com/dir/page", r#"<a href="/x">text</a>"#)
            .unwrap();
    let links = collect(&scraper);
    assert_eq!(
        links,
        vec![("text".to_string(), "https://example.com/x".to_string())]
    );
}

#[test]
fn query_href_emits_nothing() {
    let html = r#"<a href="?q=1">text</a>"#;
    let on_https = UrlScraper::new_with_html("https://example.com/dir/page", html).unwrap();
    assert!(collect(&on_https).is_empty());
    let on_http = UrlScraper::new_with_html("http://other.org/", html).unwrap();
    assert!(collect(&on_http).is_empty());
}

#[test]
fn empty_href_resolves_to_base() {
    let scraper =
        UrlScraper::new_with_html("https://example.com/a", r#"<a href="">text</a>"#).unwrap();
    let links = collect(&scraper);
    assert_eq!(
        links,
        vec![("text".to_string(), "https://example.com/a".to_string())]
    );
}

#[test]
fn missing_href_emits_nothing() {
    let scraper = UrlScraper::new_with_html(
        "https://example.com/a",
        r#"<a name="x">some <b>content</b></a>"#,
    )
    .unwrap();
    assert!(collect(&scraper).is_empty());
}

#[test]
fn inner_markup_preserved_verbatim() {
    let scraper = UrlScraper::new_with_html(
        "https://example.com/a",
        r#"<a href="https://other.com/y"><b>bold</b></a>"#,
    )
    .unwrap();
    let links = collect(&scraper);
    assert_eq!(
        links,
        vec![("<b>bold</b>".to_string(), "https://other.com/y".to_string())]
    );
}

#[test]
fn repeat_iteration_identical() {
    let scraper = UrlScraper::new_with_html(
        "https://example.com/dir/page",
        r#"<a href="/1">a</a><a href="?skip">b</a><a>c</a><a href="2">d</a>"#,
    )
    .unwrap();
    let first = collect(&scraper);
    let second = collect(&scraper);
    assert_eq!(first, second);
    assert_eq!(first.len(), 2);
}

#[test]
fn emitted_at_most_usable_anchors() {
    // Five anchors; three have an href not beginning with `?`, of which one
    // cannot be resolved, so two links come out: 2 <= 3.
    let scraper = UrlScraper::new_with_html(
        "https://example.com/a",
        r#"<a>no href</a><a href="?q=1">query</a><a href="http://[">bad</a><a href="/one">one</a><a href="two">two</a>"#,
    )
    .unwrap();
    let links = collect(&scraper);
    assert_eq!(links.len(), 2);
    assert!(links.len() <= 3);
}

#[test]
fn unresolvable_href_skipped_silently() {
    let scraper =
        UrlScraper::new_with_html("https://example.com/a", r#"<a href="http://[">bad</a>"#)
            .unwrap();
    assert!(collect(&scraper).is_empty());
}

#[test]
fn document_order_kept() {
    let scraper = UrlScraper::new_with_html(
        "https://example.com/dir/",
        r#"<a href="1">a</a><a href="2">b</a><a href="3">c</a>"#,
    )
    .unwrap();
    let links = collect(&scraper);
    assert_eq!(
        links,
        vec![
            ("a".to_string(), "https://example.com/dir/1".to_string()),
            ("b".to_string(), "https://example.com/dir/2".to_string()),
            ("c".to_string(), "https://example.com/dir/3".to_string()),
        ]
    );
}

#[test]
fn fragment_and_scheme_relative_hrefs_resolve() {
    let scraper = UrlScraper::new_with_html(
        "https://alice.com/a",
        r##"<a href="#frag">f</a><a href="//eve.com/b">e</a>"##,
    )
    .unwrap();
    let links = collect(&scraper);
    assert_eq!(
        links,
        vec![
            ("f".to_string(), "https://alice.com/a#frag".to_string()),
            ("e".to_string(), "https://eve.com/b".to_string()),
        ]
    );
}

#[test]
fn empty_text_still_emitted() {
    let scraper =
        UrlScraper::new_with_html("https://example.com/a", r#"<a href="/x"></a>"#).unwrap();
    let links = collect(&scraper);
    assert_eq!(
        links,
        vec![(String::new(), "https://example.com/x".to_string())]
    );
}

#[test]
fn base_url_is_normalized() {
    // The base is stored as the parsed URL's serialization, not as the text
    // that was supplied: scheme and host are lowercased and the empty path
    // becomes `/`, which the empty href makes visible.
    let scraper =
        UrlScraper::new_with_html("HTTPS://Example.COM", r#"<a href="">text</a>"#).unwrap();
    let links = collect(&scraper);
    assert_eq!(
        links,
        vec![("text".to_string(), "https://example.com/".to_string())]
    );
}

#[test]
fn html_input_needs_no_network() {
    // Construction from supplied HTML touches no network; this test suite
    // runs without any network access at all.
    let scraper = UrlScraper::new_with_html(
        "https://example.com/",
        "<html><body><a href=\"page\">p</a></body></html>",
    )
    .unwrap();
    assert_eq!(collect(&scraper).len(), 1);
}

#[test]
fn malformed_markup_degrades_gracefully() {
    let scraper = UrlScraper::new_with_html(
        "https://example.com/",
        r#"<div><p><a href="/x">one</a><p><a href="/y">two</a>"#,
    )
    .unwrap();
    let links = collect(&scraper);
    assert_eq!(links.len(), 2);
    assert_eq!(links[0].1, "https://example.com/x");
    assert_eq!(links[1].1, "https://example.com/y");
}
