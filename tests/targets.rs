use feed_fetcher::feed::{AtomEntry, AtomLink, RssItem};
use feed_fetcher::dates::UtcInstant;
use feed_fetcher::targets::{
    atom_content_target, classify_target, content_file_path, feed_dir_name, get_atom_content_url, get_feed_url,
    run_dir_path, rss_content_target, safe_filename, save_error, validate_url, webpage_to_source, Target,
};
use feed_fetcher::text::{ends_with, remove_all, starts_with, truncate_bytes};

#[test]
fn arguments_select_the_entry_mode() {
    assert!(matches!(classify_target("https://a.example"), Target::Page(u) if u == "https://a.example"));
    assert!(matches!(classify_target("feed!https://a.example/rss"), Target::Feed(u) if u == "https://a.example/rss"));
    assert!(matches!(classify_target("opml!subs.opml"), Target::Opml(u) if u == "subs.opml"));
    assert!(matches!(classify_target("ftp://a.example"), Target::Unknown));
    assert!(matches!(classify_target(""), Target::Unknown));
}

#[test]
fn feed_links_resolve_against_the_page() {
    let page = "https://a.example";
    assert_eq!(get_feed_url(page, "https://b.example/rss".to_string()), "https://b.example/rss");
    assert_eq!(get_feed_url(page, "rss.xml".to_string()), "https://a.example/rss.xml");
    assert_eq!(get_feed_url(page, "/feed".to_string()), "https://a.example/feed");
    assert_eq!(get_feed_url(page, "./feed".to_string()), "./feed");
    assert_eq!(get_feed_url(page, "".to_string()), "");
}

#[test]
fn urls_need_a_scheme_and_a_host() {
    assert!(validate_url("https://a.example/x"));
    assert!(!validate_url("not a url"));
    assert!(!validate_url("mailto:someone@a.example"));
    assert!(!validate_url(""));
}

#[test]
fn content_url_prefers_a_single_link_then_html() {
    let link = |h: &str, m: Option<&str>| AtomLink { href: h.to_string(), mime_type: m.map(|s| s.to_string()) };
    assert_eq!(get_atom_content_url(&vec![link("https://a.example/x.pdf", None)]).as_deref(), Some("https://a.example/x.pdf"));
    let links = vec![link("https://a.example/x.pdf", None), link("https://a.example/y", Some("text/html")), link("https://a.example/z.html", None)];
    assert_eq!(get_atom_content_url(&links).as_deref(), Some("https://a.example/y"));
    let links = vec![link("https://a.example/x.pdf", None), link("https://a.example/z.htm", None)];
    assert_eq!(get_atom_content_url(&links).as_deref(), Some("https://a.example/z.htm"));
    assert_eq!(get_atom_content_url(&vec![]), None);
    assert_eq!(get_atom_content_url(&vec![link("a", None), link("b", Some("text/plain"))]), None);
}

#[test]
fn artifact_names_are_slugged_and_cut() {
    assert_eq!(feed_dir_name("https://www.Example.com/Feed.xml"), "example-com-feed-xml");
    let long = format!("https://{}.example", "a".repeat(150));
    assert_eq!(feed_dir_name(&long).len(), 100);
    assert_eq!(safe_filename("short"), "short");
    assert_eq!(safe_filename(&"b".repeat(120)), "b".repeat(100));
    assert_eq!(safe_filename(&"é".repeat(60)), "é".repeat(50));
    assert_eq!(safe_filename(&format!("a{}", "é".repeat(60))), format!("a{}", "é".repeat(49)));
    assert_eq!(safe_filename(&"😀".repeat(30)).len(), 100);
    assert_eq!(run_dir_path("20240101_000000", "http://news.example/x"), "downloads/20240101_000000_news-example-x");
    assert_eq!(content_file_path("d/content", "my-title"), "d/content/my-title.html");
}

#[test]
fn content_targets_follow_titles() {
    let item = RssItem { title: Some("Hello World!".to_string()), link: Some("https://a.example/h".to_string()), guid: None, pub_date: None };
    let (slug, link) = rss_content_target(&item).unwrap();
    assert_eq!(slug, "hello-world");
    assert_eq!(link.as_deref(), Some("https://a.example/h"));
    let untitled = RssItem { title: None, link: Some("x".to_string()), guid: None, pub_date: None };
    assert!(rss_content_target(&untitled).is_none());
    let entry = AtomEntry {
        title: "An Entry".to_string(),
        id: "urn:e".to_string(),
        links: vec![AtomLink { href: "https://a.example/e".to_string(), mime_type: None }],
        published: None,
        updated: UtcInstant { secs: 0, nanos: 0 },
    };
    let (slug, url) = atom_content_target(&entry);
    assert_eq!(slug, "an-entry");
    assert_eq!(url.as_deref(), Some("https://a.example/e"));
}

#[test]
fn text_helpers() {
    assert!(starts_with("feed!x", "feed!"));
    assert!(!starts_with("fee", "feed!"));
    assert!(ends_with("a.html", ".html"));
    assert!(!ends_with("a.htm", ".html"));
    assert_eq!(remove_all("https://www.a.example/www.b", "www."), "https://a.example/b");
    assert_eq!(remove_all("aaa", "aa"), "a");
    assert_eq!(remove_all("abc", ""), "abc");
    assert_eq!(truncate_bytes("héllo", 3), "hé");
    assert_eq!(truncate_bytes("héllo", 2), "h");
    assert_eq!(truncate_bytes("a😀b", 4), "a");
    assert_eq!(truncate_bytes("a😀b", 5), "a😀");
    assert_eq!(truncate_bytes("", 0), "");
}

#[test]
fn messages_and_page_sources() {
    assert_eq!(save_error("feed", "https://a.example/rss"), "Error saving feed: https://a.example/rss");
    let s = webpage_to_source("Title".to_string(), "https://a.example".to_string());
    assert_eq!(s.name, "Title");
    assert_eq!(s.type_id, 5);
}
