use web_crawler::crawler::{CrawlConfig, Walker};
use web_crawler::error::CrawlError;
use web_crawler::extract::{SelectorRule, SELECTOR_PATTERN};
use web_crawler::graph::Db;
use web_crawler::policy::{Grouping, Limits, Strategy};
use web_crawler::request::{
    plan_request, respond, select_strategy, CONTENT_TYPE, STATUS_BAD_REQUEST, STATUS_FAILED,
    STATUS_OK,
};

#[test]
fn strategy_defaults_to_breadth_first() {
    assert_eq!(select_strategy(None), Strategy::BreadthFirst);
    assert_eq!(select_strategy(Some("bfs")), Strategy::BreadthFirst);
    assert_eq!(select_strategy(Some("dfs")), Strategy::DepthFirst);
    assert_eq!(select_strategy(Some("BFS")), Strategy::DepthFirst);
    assert_eq!(select_strategy(Some("")), Strategy::DepthFirst);
}

#[test]
fn request_needs_a_url() {
    match plan_request(None, Some("bfs")) {
        Err(CrawlError::UrlRequired) => {}
        other => panic!("unexpected: {:?}", other),
    }
}

#[test]
fn request_with_a_url_is_planned() {
    let request = plan_request(Some("https://a.example/"), None).unwrap();
    assert_eq!(request.url, "https://a.example/");
    assert_eq!(request.strategy, Strategy::BreadthFirst);
    let request = plan_request(Some("https://a.example/"), Some("dfs")).unwrap();
    assert_eq!(request.strategy, Strategy::DepthFirst);
}

#[test]
fn answers_carry_status_and_body() {
    let ok = respond(Ok("{}".to_string()));
    assert_eq!(ok.status, 200);
    assert_eq!(ok.body, "{}");
    let missing = respond(Err(CrawlError::UrlRequired));
    assert_eq!(missing.status, 400);
    assert_eq!(missing.body, "url is required");
    let failed = respond(Err(CrawlError::Fetch("timed out".to_string())));
    assert_eq!(failed.status, 500);
    assert_eq!(failed.body, "Custom Error: timed out");
    assert_eq!(STATUS_OK, 200);
    assert_eq!(STATUS_BAD_REQUEST, 400);
    assert_eq!(STATUS_FAILED, 500);
    assert_eq!(CONTENT_TYPE, "text/html");
}

#[test]
fn error_messages() {
    assert_eq!(
        CrawlError::Fetch("no route".to_string()).message(),
        "Custom Error: no route"
    );
    assert_eq!(
        CrawlError::Resolution { base: "https://a.example/".to_string(), href: "x:".to_string() }
            .message(),
        "cannot resolve x: against https://a.example/"
    );
    assert_eq!(
        CrawlError::SelectorConfig("a[".to_string()).message(),
        "invalid selector: a["
    );
    assert_eq!(CrawlError::UrlRequired.message(), "url is required");
}

fn config(strategy: Strategy) -> CrawlConfig {
    CrawlConfig {
        limits: Limits::standard(),
        selector_rule: SelectorRule::parse(SELECTOR_PATTERN).unwrap(),
        strategy,
        grouping: Grouping::RelativeHref,
    }
}

const SEED_PAGE: &str = "<a href=\"/first\">1</a><a href=\"/second\">2</a>";

#[test]
fn walker_breadth_first_survives_a_failed_fetch() {
    let mut w = Walker::start(
        Db::seeded("https://a.example/".to_string()),
        "https://a.example/",
        config(Strategy::BreadthFirst),
    )
    .unwrap();
    assert_eq!(w.next().unwrap(), Some("https://a.example/".to_string()));
    w.page_text(SEED_PAGE);
    assert_eq!(w.next().unwrap(), Some("https://a.example/first".to_string()));
    assert!(w.page_failed("gone".to_string()).is_none());
    assert_eq!(w.next().unwrap(), Some("https://a.example/second".to_string()));
    w.page_text("<a href=\"/q\">q</a>");
    let db = w.finish();
    assert!(db.contains_node("https://a.example/q"));
}

#[test]
fn walker_depth_first_ends_on_a_failed_fetch() {
    let mut w = Walker::start(
        Db::seeded("https://a.example/".to_string()),
        "https://a.example/",
        config(Strategy::DepthFirst),
    )
    .unwrap();
    assert_eq!(w.next().unwrap(), Some("https://a.example/".to_string()));
    w.page_text(SEED_PAGE);
    assert_eq!(w.next().unwrap(), Some("https://a.example/first".to_string()));
    match w.page_failed("gone".to_string()) {
        Some(CrawlError::Fetch(detail)) => assert_eq!(detail, "gone"),
        other => panic!("unexpected: {:?}", other),
    }
    assert_eq!(w.next().unwrap(), None);
    let db = w.finish();
    assert!(!db.contains_node("https://a.example/second"));
}

#[test]
fn walker_depth_first_ends_on_an_href_without_host() {
    let mut w = Walker::start(Db::new(), "https://a.example/", config(Strategy::DepthFirst))
        .unwrap();
    w.next().unwrap();
    w.page_text("<a href=\"mailto:x@a.example\">m</a><a href=\"/after\">a</a>");
    assert!(matches!(w.next(), Err(CrawlError::Resolution { .. })));
    let db = w.finish();
    assert_eq!(db.size(), 0);
}

#[test]
fn walker_breadth_first_passes_over_an_href_without_host() {
    let mut w = Walker::start(Db::new(), "https://a.example/", config(Strategy::BreadthFirst))
        .unwrap();
    w.next().unwrap();
    w.page_text("<a href=\"mailto:x@a.example\">m</a><a href=\"/after\">a</a>");
    assert_eq!(w.next().unwrap(), Some("https://a.example/after".to_string()));
    w.page_links(vec![]);
    let db = w.finish();
    assert_eq!(db.size(), 1);
    assert_eq!(db.frequency_of("https://a.example/"), Some(2));
}

#[test]
fn walker_start_refuses_a_seed_that_is_no_url() {
    let out = Walker::start(Db::new(), "nothing", config(Strategy::BreadthFirst));
    assert!(matches!(out, Err(CrawlError::Resolution { .. })));
    let out = Walker::start(Db::new(), "nothing", config(Strategy::DepthFirst));
    assert!(matches!(out, Err(CrawlError::Resolution { .. })));
}
