use feed_fetcher::outline::{collect_all_outlines, collect_outlines, plan_outline, FeedOutline, Outline, WEBSITE_SOURCE_TYPE};

fn node(text: &str, kind: Option<&str>, children: Vec<Outline>) -> Outline {
    Outline {
        text: text.to_string(),
        outline_type: kind.map(|k| k.to_string()),
        html_url: Some(format!("https://{}.example", text)),
        xml_url: Some(format!("https://{}.example/rss", text)),
        children,
    }
}

#[test]
fn nested_tree_yields_feed_leaves_in_document_order() {
    let tree = node(
        "root",
        None,
        vec![node("group", None, vec![node("alpha", Some("rss"), vec![])]), node("beta", Some("rss"), vec![])],
    );
    let mut found = Vec::new();
    collect_outlines(&tree, &mut found);
    let names: Vec<&str> = found.iter().map(|o| o.text.as_str()).collect();
    assert_eq!(names, vec!["alpha", "beta"]);
    assert_eq!(found[0].xml_url.as_deref(), Some("https://alpha.example/rss"));
}

#[test]
fn feed_nodes_are_taken_before_their_children() {
    let tree = node("top", Some("rss"), vec![node("inner", Some("rss"), vec![]), node("other", Some("atom"), vec![])]);
    let all = collect_all_outlines(&vec![tree, node("last", Some("rss"), vec![])]);
    let names: Vec<&str> = all.iter().map(|o| o.text.as_str()).collect();
    assert_eq!(names, vec!["top", "inner", "last"]);
}

#[test]
fn collecting_appends_to_what_is_there() {
    let mut found = vec![FeedOutline { text: "kept".to_string(), html_url: None, xml_url: None }];
    collect_outlines(&node("leaf", Some("RSS"), vec![]), &mut found);
    assert_eq!(found.len(), 1);
    collect_outlines(&node("leaf", Some("rss"), vec![]), &mut found);
    assert_eq!(found.len(), 2);
    assert_eq!(found[1].text, "leaf");
}

#[test]
fn outline_plan_needs_a_page_url() {
    let with_page = FeedOutline {
        text: "Site".to_string(),
        html_url: Some("https://site.example".to_string()),
        xml_url: Some("https://site.example/rss".to_string()),
    };
    let (source, feed) = plan_outline(&with_page).unwrap();
    assert_eq!(source.name, "Site");
    assert_eq!(source.url, "https://site.example");
    assert_eq!(source.type_id, WEBSITE_SOURCE_TYPE);
    assert_eq!(feed.as_deref(), Some("https://site.example/rss"));
    let no_page = FeedOutline { text: "x".to_string(), html_url: None, xml_url: Some("https://x.example/rss".to_string()) };
    assert!(plan_outline(&no_page).is_none());
}
