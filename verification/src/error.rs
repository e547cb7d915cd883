//! What can go wrong during a crawl.

use vstd::prelude::*;
use vstd::string::StringExecFns;

verus! {

/// The failures a crawl reports.
#[derive(Debug, Clone)]
pub enum CrawlError {
    /// A page could not be fetched; the text says why.
    Fetch(String),
    /// An href could not be turned into an absolute URL with a host.
    Resolution { base: String, href: String },
    /// The selector rule is not valid selector syntax.
    SelectorConfig(String),
    /// A request named no URL to crawl.
    UrlRequired,
}

pub enum CrawlErrorView {
    Fetch(Seq<char>),
    Resolution { base: Seq<char>, href: Seq<char> },
    SelectorConfig(Seq<char>),
    UrlRequired,
}

impl CrawlErrorView {
    /// The text shown for an error.
    pub open spec fn message(self) -> Seq<char> {
        match self {
            CrawlErrorView::Fetch(detail) => "Custom Error: "@ + detail,
            CrawlErrorView::Resolution { base, href } => "cannot resolve "@ + href + " against "@
                + base,
            CrawlErrorView::SelectorConfig(rule) => "invalid selector: "@ + rule,
            CrawlErrorView::UrlRequired => "url is required"@,
        }
    }
}

impl View for CrawlError {
    type V = CrawlErrorView;

    open spec fn view(&self) -> CrawlErrorView {
        match self {
            CrawlError::Fetch(detail) => CrawlErrorView::Fetch(detail@),
            CrawlError::Resolution { base, href } => CrawlErrorView::Resolution {
                base: base@,
                href: href@,
            },
            CrawlError::SelectorConfig(rule) => CrawlErrorView::SelectorConfig(rule@),
            CrawlError::UrlRequired => CrawlErrorView::UrlRequired,
        }
    }
}

impl DeepView for CrawlError {
    type V = CrawlErrorView;

    open spec fn deep_view(&self) -> CrawlErrorView {
        self@
    }
}

impl CrawlError {
    /// The text shown for this error.
    pub fn message(&self) -> (text: String)
        ensures
            text@ == self@.message(),
    {
        match self {
            CrawlError::Fetch(detail) => {
                let mut text = String::from_str("Custom Error: ");
                text.append(detail.as_str());
                text
            },
            CrawlError::Resolution { base, href } => {
                let mut text = String::from_str("cannot resolve ");
                text.append(href.as_str());
                text.append(" against ");
                text.append(base.as_str());
                text
            },
            CrawlError::SelectorConfig(rule) => {
                let mut text = String::from_str("invalid selector: ");
                text.append(rule.as_str());
                text
            },
            CrawlError::UrlRequired => String::from_str("url is required"),
        }
    }
}

} // verus!
