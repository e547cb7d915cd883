use web_crawler::error::CrawlError;
use web_crawler::extract::{SelectorRule, SELECTOR_PATTERN};

const PAGE: &str = "<html><body>\
    <a href=\"/x\">x</a>\
    <p><a href=\"https://b.example/y\">y</a></p>\
    <a href=\"#frag\">frag</a>\
    <a name=\"bare\">bare</a>\
    <span href=\"/not-an-anchor\">no</span>\
    </body></html>";

#[test]
fn standard_rule_is_valid() {
    let rule = SelectorRule::parse(SELECTOR_PATTERN).unwrap();
    assert_eq!(rule.pattern(), "a:not([href^=\"#\"])");
}

#[test]
fn invalid_rule_is_a_configuration_error() {
    match SelectorRule::parse("a[") {
        Err(CrawlError::SelectorConfig(rule)) => assert_eq!(rule, "a["),
        other => panic!("unexpected: {:?}", other),
    }
}

#[test]
fn standard_rule_leaves_fragment_anchors_out() {
    let rule = SelectorRule::parse(SELECTOR_PATTERN).unwrap();
    let hrefs = rule.anchors(PAGE);
    assert_eq!(
        hrefs,
        vec![Some("/x".to_string()), Some("https://b.example/y".to_string()), None]
    );
}

#[test]
fn plain_anchor_rule_takes_every_anchor() {
    let rule = SelectorRule::parse("a").unwrap();
    let hrefs = rule.anchors(PAGE);
    assert_eq!(
        hrefs,
        vec![
            Some("/x".to_string()),
            Some("https://b.example/y".to_string()),
            Some("#frag".to_string()),
            None
        ]
    );
}

#[test]
fn page_without_anchors_has_no_hrefs() {
    let rule = SelectorRule::parse(SELECTOR_PATTERN).unwrap();
    assert!(rule.anchors("").is_empty());
    assert!(rule.anchors("<p>nothing here</p>").is_empty());
}

#[test]
fn the_same_href_twice_is_reported_twice() {
    let rule = SelectorRule::parse(SELECTOR_PATTERN).unwrap();
    let hrefs = rule.anchors("<a href=\"/x\">1</a><a href=\"/x\">2</a>");
    assert_eq!(hrefs, vec![Some("/x".to_string()), Some("/x".to_string())]);
}
