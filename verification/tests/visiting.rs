use web_crawler::graph::Db;
use web_crawler::policy::{Grouping, Limits};
use web_crawler::resolve::ResolvedUrl;
use web_crawler::visit::{visit_link, FrontierItem, Visit};

fn page(url: &str, depth: i32, group: i32) -> FrontierItem {
    FrontierItem { url: url.to_string(), depth, group }
}

fn target(url: &str, host: &str) -> ResolvedUrl {
    ResolvedUrl { url: url.to_string(), host: host.to_string() }
}

fn limits() -> Limits {
    Limits { max_depth: 2, max_nodes: 100 }
}

#[test]
fn seed_item_starts_at_depth_zero_in_group_zero() {
    let item = FrontierItem::seed("https://a.example/".to_string());
    assert_eq!(item.url, "https://a.example/");
    assert_eq!(item.depth, 0);
    assert_eq!(item.group, 0);
}

#[test]
fn new_relative_link_is_recorded_and_scheduled_in_the_same_group() {
    let mut db = Db::seeded("https://a.example/".to_string());
    let outcome = visit_link(
        &mut db,
        &page("https://a.example/", 0, 0),
        "/x",
        &target("https://a.example/x", "a.example"),
        &limits(),
        Grouping::RelativeHref,
    );
    match outcome {
        Visit::Descend(child) => {
            assert_eq!(child.url, "https://a.example/x");
            assert_eq!(child.depth, 1);
            assert_eq!(child.group, 0);
        }
        other => panic!("unexpected: {:?}", other),
    }
    assert_eq!(db.size(), 2);
    assert_eq!(db.group_of("https://a.example/x"), Some(0));
    assert!(db.contains_link("https://a.example/", "https://a.example/x"));
    assert!(db.contains_host("a.example"));
}

#[test]
fn new_absolute_link_starts_the_next_group() {
    let mut db = Db::seeded("https://a.example/".to_string());
    let outcome = visit_link(
        &mut db,
        &page("https://a.example/", 1, 3),
        "https://b.example/y",
        &target("https://b.example/y", "b.example"),
        &limits(),
        Grouping::RelativeHref,
    );
    match outcome {
        Visit::Descend(child) => {
            assert_eq!(child.url, "https://b.example/y");
            assert_eq!(child.depth, 2);
            assert_eq!(child.group, 4);
        }
        other => panic!("unexpected: {:?}", other),
    }
    assert_eq!(db.group_of("https://b.example/y"), Some(4));
    assert!(db.contains_host("b.example"));
}

#[test]
fn recorded_link_is_skipped_entirely() {
    let mut db = Db::seeded("https://a.example/".to_string());
    let from = page("https://a.example/", 0, 0);
    let to = target("https://a.example/x", "a.example");
    visit_link(&mut db, &from, "/x", &to, &limits(), Grouping::RelativeHref);
    let again = visit_link(&mut db, &from, "/x", &to, &limits(), Grouping::RelativeHref);
    assert!(matches!(again, Visit::DuplicateLink));
    assert_eq!(db.size(), 2);
    assert_eq!(db.links().len(), 1);
    assert_eq!(db.host_names().len(), 1);
}

#[test]
fn link_to_known_node_is_recorded_without_touching_the_node() {
    let mut db = Db::seeded("https://a.example/".to_string());
    let outcome = visit_link(
        &mut db,
        &page("https://a.example/x", 1, 5),
        "https://a.example/",
        &target("https://a.example/", "a.example"),
        &limits(),
        Grouping::RelativeHref,
    );
    assert!(matches!(outcome, Visit::KnownNode));
    assert_eq!(db.size(), 1);
    assert_eq!(db.group_of("https://a.example/"), Some(0));
    assert!(db.contains_link("https://a.example/x", "https://a.example/"));
    assert!(db.host_names().is_empty());
}

#[test]
fn page_at_the_depth_cap_records_without_scheduling() {
    let mut db = Db::seeded("https://a.example/".to_string());
    let outcome = visit_link(
        &mut db,
        &page("https://a.example/deep", 2, 0),
        "/deeper",
        &target("https://a.example/deeper", "a.example"),
        &limits(),
        Grouping::RelativeHref,
    );
    assert!(matches!(outcome, Visit::Recorded));
    assert!(db.contains_node("https://a.example/deeper"));
    assert!(db.contains_link("https://a.example/deep", "https://a.example/deeper"));
    assert!(db.contains_host("a.example"));
}

#[test]
fn page_just_below_the_depth_cap_still_schedules() {
    let mut db = Db::new();
    let outcome = visit_link(
        &mut db,
        &page("https://a.example/p", 1, 0),
        "/q",
        &target("https://a.example/q", "a.example"),
        &limits(),
        Grouping::RelativeHref,
    );
    match outcome {
        Visit::Descend(child) => assert_eq!(child.depth, 2),
        other => panic!("unexpected: {:?}", other),
    }
}

#[test]
fn known_host_grouping_reads_the_hosts_recorded_before_the_visit() {
    let mut db = Db::new();
    let outcome = visit_link(
        &mut db,
        &page("https://a.example/", 0, 0),
        "a.example",
        &target("https://a.example/a.example", "a.example"),
        &limits(),
        Grouping::KnownHost,
    );
    match outcome {
        Visit::Descend(child) => assert_eq!(child.group, 1),
        other => panic!("unexpected: {:?}", other),
    }
    let outcome = visit_link(
        &mut db,
        &page("https://a.example/", 0, 0),
        "a.example",
        &target("https://a.example/other", "a.example"),
        &limits(),
        Grouping::KnownHost,
    );
    match outcome {
        Visit::Descend(child) => assert_eq!(child.group, 0),
        other => panic!("unexpected: {:?}", other),
    }
}
