use web_crawler::bfs::BfsWalker;
use web_crawler::error::CrawlError;
use web_crawler::extract::{SelectorRule, SELECTOR_PATTERN};
use web_crawler::graph::Db;
use web_crawler::policy::{Grouping, Limits};
use web_crawler::resolve::{PageLink, ResolvedUrl};
use web_crawler::visit::FrontierItem;

fn rule() -> SelectorRule {
    SelectorRule::parse(SELECTOR_PATTERN).unwrap()
}

fn resolved(raw: &str, url: &str, host: &str) -> PageLink {
    PageLink::Resolved {
        raw: raw.to_string(),
        target: ResolvedUrl { url: url.to_string(), host: host.to_string() },
    }
}

fn local(path: &str) -> PageLink {
    resolved(path, &format!("https://a.example{}", path), "a.example")
}

fn walker(limits: Limits) -> BfsWalker {
    BfsWalker::start(
        Db::seeded("https://a.example/".to_string()),
        "https://a.example/",
        limits,
        Grouping::RelativeHref,
        rule(),
    )
    .unwrap()
}

fn node_urls(db: &Db) -> Vec<String> {
    db.nodes().iter().map(|n| n.url.clone()).collect()
}

#[test]
fn bfs_seed_scenario() {
    let mut w = walker(Limits::standard());
    assert_eq!(w.next(), Some("https://a.example/".to_string()));
    w.page_text(
        "<a href=\"/x\">x</a><a href=\"https://b.example/y\">y</a><a href=\"#frag\">f</a>",
    );
    let db = w.db();
    assert_eq!(
        node_urls(db),
        vec!["https://a.example/", "https://a.example/x", "https://b.example/y"]
    );
    assert_eq!(db.group_of("https://a.example/x"), Some(0));
    assert_eq!(db.group_of("https://b.example/y"), Some(1));
    assert_eq!(db.links().len(), 2);
    assert!(db.contains_link("https://a.example/", "https://a.example/x"));
    assert!(db.contains_link("https://a.example/", "https://b.example/y"));
    assert!(!db.contains_node("https://a.example/#frag"));
    assert_eq!(db.host_names().len(), 2);
    assert!(db.contains_host("a.example"));
    assert!(db.contains_host("b.example"));
    assert_eq!(db.frequency_of("https://a.example/"), Some(2));
}

#[test]
fn bfs_start_refuses_a_seed_that_is_no_url() {
    let out = BfsWalker::start(
        Db::new(),
        "no url at all",
        Limits::standard(),
        Grouping::RelativeHref,
        rule(),
    );
    match out {
        Err(CrawlError::Resolution { base, href }) => {
            assert_eq!(base, "");
            assert_eq!(href, "no url at all");
        }
        Ok(_) => panic!("the seed was accepted"),
        Err(other) => panic!("unexpected: {:?}", other),
    }
}

#[test]
fn bfs_start_normalizes_the_seed() {
    let mut w = BfsWalker::start(
        Db::new(),
        "https://a.example",
        Limits::standard(),
        Grouping::RelativeHref,
        rule(),
    )
    .unwrap();
    assert_eq!(w.next(), Some("https://a.example/".to_string()));
}

#[test]
fn bfs_hands_the_same_url_out_until_it_is_reported() {
    let mut w = walker(Limits::standard());
    assert_eq!(w.next(), Some("https://a.example/".to_string()));
    assert_eq!(w.next(), Some("https://a.example/".to_string()));
    w.page_links(vec![]);
    assert_eq!(w.next(), None);
    assert_eq!(w.next(), None);
}

#[test]
fn bfs_expands_pages_in_discovery_order() {
    let mut w = walker(Limits::standard());
    assert_eq!(w.next(), Some("https://a.example/".to_string()));
    w.page_links(vec![local("/a"), local("/b")]);
    assert_eq!(w.next(), Some("https://a.example/a".to_string()));
    w.page_links(vec![local("/a1")]);
    assert_eq!(w.next(), Some("https://a.example/b".to_string()));
    w.page_links(vec![local("/b1")]);
    assert_eq!(w.next(), Some("https://a.example/a1".to_string()));
    w.page_links(vec![]);
    assert_eq!(w.next(), Some("https://a.example/b1".to_string()));
    w.page_links(vec![]);
    assert_eq!(w.next(), None);
    let db = w.finish();
    assert_eq!(
        node_urls(&db),
        vec![
            "https://a.example/",
            "https://a.example/a",
            "https://a.example/b",
            "https://a.example/a1",
            "https://a.example/b1"
        ]
    );
}

#[test]
fn bfs_fetch_failure_skips_only_that_page() {
    let mut w = walker(Limits::standard());
    assert_eq!(w.next(), Some("https://a.example/".to_string()));
    w.page_links(vec![local("/first"), local("/second")]);
    assert_eq!(w.next(), Some("https://a.example/first".to_string()));
    w.page_failed();
    assert_eq!(w.next(), Some("https://a.example/second".to_string()));
    w.page_links(vec![local("/q")]);
    assert_eq!(w.next(), Some("https://a.example/q".to_string()));
    w.page_links(vec![]);
    assert_eq!(w.next(), None);
    let db = w.finish();
    assert!(db.contains_node("https://a.example/q"));
    assert!(db.contains_link("https://a.example/second", "https://a.example/q"));
    assert_eq!(db.frequency_of("https://a.example/first"), None);
    assert_eq!(db.frequency_of("https://a.example/second"), Some(1));
}

#[test]
fn bfs_unresolved_and_missing_hrefs_are_passed_over() {
    let mut w = walker(Limits::standard());
    w.next();
    w.page_links(vec![
        PageLink::Missing,
        PageLink::Unresolved { raw: "mailto:x@a.example".to_string() },
        local("/x"),
    ]);
    let db = w.db();
    assert_eq!(db.size(), 2);
    assert!(db.contains_node("https://a.example/x"));
    assert_eq!(db.frequency_of("https://a.example/"), Some(3));
}

#[test]
fn bfs_known_url_adds_no_node_and_keeps_its_group() {
    let mut w = walker(Limits::standard());
    w.next();
    w.page_links(vec![resolved("https://b.example/", "https://b.example/", "b.example")]);
    assert_eq!(w.next(), Some("https://b.example/".to_string()));
    w.page_links(vec![
        resolved("https://a.example/", "https://a.example/", "a.example"),
        resolved("/", "https://b.example/", "b.example"),
    ]);
    let db = w.db();
    assert_eq!(db.size(), 2);
    assert_eq!(db.group_of("https://a.example/"), Some(0));
    assert_eq!(db.group_of("https://b.example/"), Some(1));
    assert_eq!(db.links().len(), 3);
    assert_eq!(w.next(), None);
}

#[test]
fn bfs_same_href_twice_gives_one_link() {
    let mut w = walker(Limits::standard());
    w.next();
    w.page_links(vec![local("/x"), local("/x"), local("/x")]);
    let db = w.db();
    assert_eq!(db.links().len(), 1);
    assert_eq!(db.size(), 2);
    assert_eq!(db.frequency_of("https://a.example/"), Some(3));
}

#[test]
fn bfs_page_at_the_depth_cap_is_fetched_but_schedules_nothing() {
    let mut w = walker(Limits { max_depth: 1, max_nodes: 100 });
    assert_eq!(w.next(), Some("https://a.example/".to_string()));
    w.page_links(vec![local("/d1")]);
    assert_eq!(w.next(), Some("https://a.example/d1".to_string()));
    w.page_links(vec![local("/d2")]);
    assert_eq!(w.next(), None);
    let db = w.finish();
    assert!(db.contains_node("https://a.example/d2"));
    assert!(db.contains_link("https://a.example/d1", "https://a.example/d2"));
}

#[test]
fn bfs_depth_cap_zero_records_the_seed_links_only() {
    let mut w = walker(Limits { max_depth: 0, max_nodes: 100 });
    assert_eq!(w.next(), Some("https://a.example/".to_string()));
    w.page_links(vec![local("/d1"), local("/d2")]);
    assert_eq!(w.next(), None);
    assert_eq!(w.db().size(), 3);
}

#[test]
fn bfs_stops_at_the_node_cap() {
    let mut w = walker(Limits { max_depth: 10, max_nodes: 3 });
    assert_eq!(w.next(), Some("https://a.example/".to_string()));
    w.page_links(vec![local("/1"), local("/2"), local("/3"), local("/4")]);
    assert_eq!(w.db().size(), 3);
    assert!(w.db().contains_node("https://a.example/2"));
    assert!(!w.db().contains_node("https://a.example/3"));
    assert_eq!(w.db().links().len(), 2);
    assert_eq!(w.next(), None);
    assert_eq!(w.db().frequency_of("https://a.example/"), Some(3));
}

#[test]
fn bfs_fetches_nothing_when_the_store_is_already_full() {
    let mut w = walker(Limits { max_depth: 10, max_nodes: 1 });
    assert_eq!(w.next(), None);
    assert_eq!(w.db().size(), 1);
}

#[test]
fn bfs_report_without_an_awaited_page_changes_nothing() {
    let mut w = walker(Limits::standard());
    w.page_links(vec![local("/x")]);
    assert_eq!(w.db().size(), 1);
    assert!(w.db().links().is_empty());
    assert!(w.db().frequencies().is_empty());
    w.page_failed();
    assert_eq!(w.next(), Some("https://a.example/".to_string()));
}

#[test]
fn bfs_new_with_a_given_item_starts_there() {
    let mut w = BfsWalker::new(
        Db::new(),
        FrontierItem { url: "https://a.example/p".to_string(), depth: 2, group: 1 },
        Limits { max_depth: 3, max_nodes: 100 },
        Grouping::RelativeHref,
        rule(),
    );
    assert_eq!(w.next(), Some("https://a.example/p".to_string()));
    w.page_links(vec![resolved("https://b.example/", "https://b.example/", "b.example")]);
    assert_eq!(w.db().group_of("https://b.example/"), Some(2));
    assert_eq!(w.next(), Some("https://b.example/".to_string()));
    w.page_links(vec![local("/too-deep")]);
    assert_eq!(w.next(), None);
    assert_eq!(w.db().group_of("https://a.example/too-deep"), Some(2));
}
