//! Turning the hrefs of a page into absolute URLs.
//!
//! URL parsing and joining are the work of the `url` crate. The three
//! wrappers in this module are believed, not proved: each names what the
//! crate returns as a function of the text it is given.

use crate::error::{CrawlError, CrawlErrorView};
use vstd::prelude::*;

verus! {

/// The serialization that `url::Url::parse` gives for `input`, or `None`
/// where it rejects `input` as an absolute URL.
pub uninterp spec fn absolute_url(input: Seq<char>) -> Option<Seq<char>>;

/// The serialization of what `url::Url::join` gives for `href` on the URL
/// parsed from `base`, or `None` where `base` does not parse or the join is
/// rejected.
pub uninterp spec fn joined_url(base: Seq<char>, href: Seq<char>) -> Option<Seq<char>>;

/// What `url::Url::host_str` gives for the URL parsed from `url`, or `None`
/// where `url` does not parse or has no host.
pub uninterp spec fn url_host(url: Seq<char>) -> Option<Seq<char>>;

/// Calls `url::Url::parse` and hands back the serialization of the parsed
/// URL. The contract only names the result: `absolute_url`.
#[verifier::external_body]
fn parse_absolute(input: &str) -> (out: Option<String>)
    ensures
        out.deep_view() == absolute_url(input@),
{
    match url::Url::parse(input) {
        Ok(parsed) => Some(String::from(parsed)),
        Err(_) => None,
    }
}

/// Parses `base` with `url::Url::parse`, calls `url::Url::join` on it with
/// `href` and hands back the serialization of the joined URL. The contract
/// only names the result: `joined_url`.
#[verifier::external_body]
fn join_href(base: &str, href: &str) -> (out: Option<String>)
    ensures
        out.deep_view() == joined_url(base@, href@),
{
    match url::Url::parse(base) {
        Ok(parsed) => match parsed.join(href) {
            Ok(joined) => Some(String::from(joined)),
            Err(_) => None,
        },
        Err(_) => None,
    }
}

/// Parses `url` with `url::Url::parse` and hands back a copy of what
/// `url::Url::host_str` gives for it. The contract only names the result:
/// `url_host`.
#[verifier::external_body]
fn host_of(url: &str) -> (out: Option<String>)
    ensures
        out.deep_view() == url_host(url@),
{
    match url::Url::parse(url) {
        Ok(parsed) => parsed.host_str().map(String::from),
        Err(_) => None,
    }
}

/// An absolute URL together with its host name.
#[derive(Debug, Clone)]
pub struct ResolvedUrl {
    pub url: String,
    pub host: String,
}

pub struct ResolvedView {
    pub url: Seq<char>,
    pub host: Seq<char>,
}

impl View for ResolvedUrl {
    type V = ResolvedView;

    open spec fn view(&self) -> ResolvedView {
        ResolvedView { url: self.url@, host: self.host@ }
    }
}

/// What an href resolves to against the URL of the page it stands on: the
/// joined URL and its host, or `None` where the join fails or the joined URL
/// has no host.
pub open spec fn resolution(base: Seq<char>, href: Seq<char>) -> Option<ResolvedView> {
    match joined_url(base, href) {
        Some(url) => match url_host(url) {
            Some(host) => Some(ResolvedView { url, host }),
            None => None,
        },
        None => None,
    }
}

/// Resolves an href against the URL of the page it stands on.
pub fn resolve(base: &str, href: &str) -> (out: Result<ResolvedUrl, CrawlError>)
    ensures
        match out {
            Ok(target) => resolution(base@, href@) == Some(target@),
            Err(e) => resolution(base@, href@) is None && e@ == (CrawlErrorView::Resolution {
                base: base@,
                href: href@,
            }),
        },
{
    match join_href(base, href) {
        Some(url) => match host_of(url.as_str()) {
            Some(host) => Ok(ResolvedUrl { url, host }),
            None => Err(CrawlError::Resolution { base: base.to_owned(), href: href.to_owned() }),
        },
        None => Err(CrawlError::Resolution { base: base.to_owned(), href: href.to_owned() }),
    }
}

/// The normal form of a seed URL, as the `url` crate serializes it.
pub fn normalize(seed: &str) -> (out: Result<String, CrawlError>)
    ensures
        match out {
            Ok(url) => absolute_url(seed@) == Some(url@),
            Err(e) => absolute_url(seed@) is None && e@ == (CrawlErrorView::Resolution {
                base: Seq::empty(),
                href: seed@,
            }),
        },
{
    match parse_absolute(seed) {
        Some(url) => Ok(url),
        None => Err(CrawlError::Resolution { base: String::new(), href: seed.to_owned() }),
    }
}

/// One anchor of a page, after resolution.
#[derive(Debug, Clone)]
pub enum PageLink {
    /// The anchor has no href.
    Missing,
    /// The href could not be resolved.
    Unresolved { raw: String },
    /// The href as written, and what it resolved to.
    Resolved { raw: String, target: ResolvedUrl },
}

pub enum PageLinkView {
    Missing,
    Unresolved { raw: Seq<char> },
    Resolved { raw: Seq<char>, target: ResolvedView },
}

impl View for PageLink {
    type V = PageLinkView;

    open spec fn view(&self) -> PageLinkView {
        match self {
            PageLink::Missing => PageLinkView::Missing,
            PageLink::Unresolved { raw } => PageLinkView::Unresolved { raw: raw@ },
            PageLink::Resolved { raw, target } => PageLinkView::Resolved {
                raw: raw@,
                target: target@,
            },
        }
    }
}

impl DeepView for PageLink {
    type V = PageLinkView;

    open spec fn deep_view(&self) -> PageLinkView {
        self@
    }
}

/// What one anchor of the page at `base` comes to.
pub open spec fn link_of(base: Seq<char>, href: Option<Seq<char>>) -> PageLinkView {
    match href {
        None => PageLinkView::Missing,
        Some(raw) => match resolution(base, raw) {
            Some(target) => PageLinkView::Resolved { raw, target },
            None => PageLinkView::Unresolved { raw },
        },
    }
}

/// What the anchors of the page at `base` come to, in document order.
pub open spec fn links_of(base: Seq<char>, hrefs: Seq<Option<Seq<char>>>) -> Seq<PageLinkView> {
    Seq::new(hrefs.len(), |i: int| link_of(base, hrefs[i]))
}

/// Resolves one anchor of the page at `base`.
pub fn resolve_anchor(base: &str, href: &Option<String>) -> (link: PageLink)
    ensures
        link@ == link_of(base@, href.deep_view()),
{
    match href {
        None => PageLink::Missing,
        Some(raw) => match resolve(base, raw.as_str()) {
            Ok(target) => PageLink::Resolved { raw: raw.clone(), target },
            Err(_) => PageLink::Unresolved { raw: raw.clone() },
        },
    }
}

/// Resolves the anchors of the page at `base`, keeping their order.
pub fn resolve_anchors(base: &str, hrefs: &Vec<Option<String>>) -> (links: Vec<PageLink>)
    ensures
        links.deep_view() == links_of(base@, hrefs.deep_view()),
{
    let mut links: Vec<PageLink> = Vec::new();
    let mut i: usize = 0;
    while i < hrefs.len()
        invariant
            i <= hrefs.len(),
            links.len() == i,
            forall|k: int|
                0 <= k < i ==> (#[trigger] links[k])@ == link_of(base@, hrefs[k].deep_view()),
        decreases hrefs.len() - i,
    {
        let link = resolve_anchor(base, &hrefs[i]);
        links.push(link);
        i += 1;
    }
    assert(links.deep_view() =~= links_of(base@, hrefs.deep_view()));
    links
}

} // verus!
