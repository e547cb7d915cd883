//! Picking the anchors out of a page.
//!
//! HTML parsing and selector matching are the work of the `scraper` crate.
//! The two wrappers in this module are believed, not proved: each names what
//! the crate returns as a function of the text it is given.

use crate::error::{CrawlError, CrawlErrorView};
use vstd::prelude::*;

verus! {

/// The selector rule a crawl has when none is chosen: every anchor whose
/// href does not begin with `#`.
pub const SELECTOR_PATTERN: &'static str = "a:not([href^=\"#\"])";

/// Whether `scraper::Selector::parse` accepts `rule`.
pub uninterp spec fn selector_parses(rule: Seq<char>) -> bool;

/// For the document that `scraper::Html::parse_document` builds from `page`,
/// and each element that `scraper::Html::select` yields for the selector
/// parsed from `rule`, in the order in which it yields them: the value of the
/// element's attribute `attr`, or `None` where the element has none.
pub uninterp spec fn selected_attrs(page: Seq<char>, rule: Seq<char>, attr: Seq<char>) -> Seq<
    Option<Seq<char>>,
>;

/// Calls `scraper::Selector::parse` and says whether it accepted the rule.
/// The contract only names the result: `selector_parses`.
#[verifier::external_body]
fn selector_accepted(rule: &str) -> (accepted: bool)
    ensures
        accepted == selector_parses(rule@),
{
    scraper::Selector::parse(rule).is_ok()
}

/// Parses the page with `scraper::Html::parse_document`, walks the elements
/// that `scraper::Html::select` yields for the selector parsed from `rule`,
/// and copies from each what `scraper::node::Element::attr` gives for
/// `attr`. The contract only names the result: `selected_attrs`. Where the
/// rule does not parse, which `requires` rules out, nothing is selected.
#[verifier::external_body]
fn select_attrs(page: &str, rule: &str, attr: &str) -> (out: Vec<Option<String>>)
    requires
        selector_parses(rule@),
    ensures
        out.deep_view() == selected_attrs(page@, rule@, attr@),
{
    match scraper::Selector::parse(rule) {
        Ok(selector) => scraper::Html::parse_document(page).select(&selector).map(
            |element| element.value().attr(attr).map(String::from),
        ).collect(),
        Err(_) => Vec::new(),
    }
}

/// A selector rule that is known to be valid selector syntax.
#[derive(Debug, Clone)]
pub struct SelectorRule {
    pattern: String,
}

impl View for SelectorRule {
    type V = Seq<char>;

    closed spec fn view(&self) -> Seq<char> {
        self.pattern@
    }
}

/// The hrefs of the anchors that a rule selects on a page, in document
/// order; `None` stands for an anchor without an href.
pub open spec fn anchor_hrefs(page: Seq<char>, rule: Seq<char>) -> Seq<Option<Seq<char>>> {
    selected_attrs(page, rule, "href"@)
}

impl SelectorRule {
    /// The rule is valid selector syntax.
    pub closed spec fn wf(&self) -> bool {
        selector_parses(self.pattern@)
    }

    /// Checks a rule. An invalid rule is a configuration error, found before
    /// any page is looked at.
    pub fn parse(pattern: &str) -> (out: Result<SelectorRule, CrawlError>)
        ensures
            match out {
                Ok(rule) => selector_parses(pattern@) && rule.wf() && rule@ == pattern@,
                Err(e) => !selector_parses(pattern@) && e@ == CrawlErrorView::SelectorConfig(
                    pattern@,
                ),
            },
    {
        if selector_accepted(pattern) {
            Ok(SelectorRule { pattern: pattern.to_owned() })
        } else {
            Err(CrawlError::SelectorConfig(pattern.to_owned()))
        }
    }

    /// The text of the rule.
    pub fn pattern(&self) -> (text: &str)
        ensures
            text@ == self@,
    {
        self.pattern.as_str()
    }

    /// The hrefs of the anchors that the rule selects on a page.
    pub fn anchors(&self, page: &str) -> (hrefs: Vec<Option<String>>)
        requires
            self.wf(),
        ensures
            hrefs.deep_view() == anchor_hrefs(page@, self@),
    {
        select_attrs(page, self.pattern.as_str(), "href")
    }
}

} // verus!
