use web_crawler::graph::{Db, Link, Node};

fn node(url: &str, group: i32) -> Node {
    Node { url: url.to_string(), group }
}

fn link(source: &str, target: &str) -> Link {
    Link { source: source.to_string(), target: target.to_string() }
}

#[test]
fn empty_store_has_no_nodes() {
    let db = Db::new();
    assert_eq!(db.size(), 0);
    assert!(!db.contains_node("https://a.example/"));
    assert!(db.nodes().is_empty());
    assert!(db.links().is_empty());
    assert!(db.host_names().is_empty());
    assert!(db.frequencies().is_empty());
}

#[test]
fn seeded_store_holds_the_start_url_in_group_zero() {
    let db = Db::seeded("https://a.example/".to_string());
    assert_eq!(db.size(), 1);
    assert!(db.contains_node("https://a.example/"));
    assert_eq!(db.group_of("https://a.example/"), Some(0));
    assert_eq!(db.group_of("https://b.example/"), None);
}

#[test]
fn insert_node_keeps_first_group() {
    let mut db = Db::new();
    db.insert_node(node("https://a.example/", 0));
    db.insert_node(node("https://a.example/", 7));
    assert_eq!(db.size(), 1);
    assert_eq!(db.group_of("https://a.example/"), Some(0));
}

#[test]
fn nodes_are_listed_in_discovery_order() {
    let mut db = Db::new();
    db.insert_node(node("c", 2));
    db.insert_node(node("a", 0));
    db.insert_node(node("b", 1));
    db.insert_node(node("a", 5));
    let urls: Vec<&str> = db.nodes().iter().map(|n| n.url.as_str()).collect();
    let groups: Vec<i32> = db.nodes().iter().map(|n| n.group).collect();
    assert_eq!(urls, vec!["c", "a", "b"]);
    assert_eq!(groups, vec![2, 0, 1]);
    assert_eq!(db.size(), 3);
}

#[test]
fn insert_link_is_idempotent() {
    let mut db = Db::new();
    db.insert_link(link("a", "b"));
    db.insert_link(link("a", "b"));
    db.insert_link(link("b", "a"));
    assert_eq!(db.links().len(), 2);
    assert!(db.contains_link("a", "b"));
    assert!(db.contains_link("b", "a"));
    assert!(!db.contains_link("a", "a"));
}

#[test]
fn links_of_one_source_are_told_apart_by_target() {
    let mut db = Db::new();
    db.insert_link(link("a", "b"));
    db.insert_link(link("a", "c"));
    db.insert_link(link("d", "b"));
    assert!(db.contains_link("a", "c"));
    assert!(db.contains_link("d", "b"));
    assert!(!db.contains_link("d", "c"));
    assert!(!db.contains_link("c", "a"));
    let pairs: Vec<(&str, &str)> =
        db.links().iter().map(|l| (l.source.as_str(), l.target.as_str())).collect();
    assert_eq!(pairs, vec![("a", "b"), ("a", "c"), ("d", "b")]);
}

#[test]
fn a_link_is_stored_without_its_nodes() {
    let mut db = Db::new();
    db.insert_link(link("a", "b"));
    assert_eq!(db.size(), 0);
    assert!(!db.contains_node("a"));
    assert!(!db.contains_node("b"));
}

#[test]
fn record_host_adds_each_name_once() {
    let mut db = Db::new();
    db.record_host("a.example".to_string());
    db.record_host("b.example".to_string());
    db.record_host("a.example".to_string());
    assert_eq!(db.host_names().len(), 2);
    assert_eq!(db.host_names()[0], "a.example");
    assert_eq!(db.host_names()[1], "b.example");
    assert!(db.contains_host("a.example"));
    assert!(!db.contains_host("c.example"));
}

#[test]
fn record_frequency_overwrites_in_place() {
    let mut db = Db::new();
    db.record_frequency("a".to_string(), 3);
    db.record_frequency("b".to_string(), 5);
    db.record_frequency("a".to_string(), 9);
    assert_eq!(db.frequencies().len(), 2);
    assert_eq!(db.frequencies()[0].url, "a");
    assert_eq!(db.frequencies()[0].count, 9);
    assert_eq!(db.frequencies()[1].url, "b");
    assert_eq!(db.frequencies()[1].count, 5);
    assert_eq!(db.frequency_of("a"), Some(9));
    assert_eq!(db.frequency_of("c"), None);
}

#[test]
fn nodes_are_equal_by_url_alone() {
    assert!(node("https://a.example/", 0) == node("https://a.example/", 3));
    assert!(node("https://a.example/", 0) != node("https://b.example/", 0));
}

#[test]
fn links_are_equal_by_source_and_target() {
    assert!(link("a", "b") == link("a", "b"));
    assert!(link("a", "b") != link("b", "a"));
    assert!(link("a", "b") != link("a", "c"));
}
