//! One front for the two walkers: the configuration says which of them
//! walks.

use crate::bfs::{BfsView, BfsWalker};
use crate::dfs::{answer_view, DfsView, DfsWalker};
use crate::error::{CrawlError, CrawlErrorView};
use crate::extract::{anchor_hrefs, SelectorRule};
use crate::graph::{Db, GraphView};
use crate::policy::{Grouping, Limits, Strategy};
use crate::resolve::{absolute_url, links_of, PageLink, PageLinkView};
use crate::visit::ItemView;
use vstd::prelude::*;

verus! {

/// What a crawl is given before it starts.
pub struct CrawlConfig {
    pub limits: Limits,
    pub selector_rule: SelectorRule,
    pub strategy: Strategy,
    pub grouping: Grouping,
}

impl CrawlConfig {
    pub open spec fn wf(&self) -> bool {
        self.limits.wf() && self.selector_rule.wf()
    }
}

/// A crawl under way, by either strategy.
pub enum Walker {
    BreadthFirst(BfsWalker),
    DepthFirst(DfsWalker),
}

/// The mathematical content of a crawl under way.
pub enum WalkerView {
    BreadthFirst(BfsView),
    DepthFirst(DfsView),
}

/// One thing that happens to a crawl under way.
pub enum CrawlEvent {
    /// The next page to fetch is asked for.
    Next,
    /// The awaited page is reported with its anchors.
    PageLinks(Seq<PageLinkView>),
    /// The awaited page is reported as not fetched.
    PageFailed,
}

/// A crawl after a call of `next`, and what the call answered.
pub struct WalkerStep {
    pub state: WalkerView,
    pub answer: Result<Option<Seq<char>>, CrawlErrorView>,
}

impl WalkerView {
    pub open spec fn well_formed(self) -> bool {
        match self {
            WalkerView::BreadthFirst(state) => state.well_formed(),
            WalkerView::DepthFirst(state) => state.well_formed(),
        }
    }

    /// What has been discovered.
    pub open spec fn graph(self) -> GraphView {
        match self {
            WalkerView::BreadthFirst(state) => state.graph,
            WalkerView::DepthFirst(state) => state.graph,
        }
    }

    /// The page handed out for fetching and not yet reported back.
    pub open spec fn awaiting(self) -> Option<ItemView> {
        match self {
            WalkerView::BreadthFirst(state) => state.awaiting,
            WalkerView::DepthFirst(state) => state.awaiting,
        }
    }

    /// The selector rule of the crawl.
    pub open spec fn rule(self) -> Seq<char> {
        match self {
            WalkerView::BreadthFirst(state) => state.rule,
            WalkerView::DepthFirst(state) => state.rule,
        }
    }

    /// The crawl as a fresh walker holds it.
    pub open spec fn initial(
        graph: GraphView,
        seed: ItemView,
        limits: Limits,
        grouping: Grouping,
        rule: Seq<char>,
        strategy: Strategy,
    ) -> WalkerView {
        match strategy {
            Strategy::BreadthFirst => WalkerView::BreadthFirst(
                BfsView::initial(graph, seed, limits, grouping, rule),
            ),
            Strategy::DepthFirst => WalkerView::DepthFirst(
                DfsView::initial(graph, seed, limits, grouping, rule),
            ),
        }
    }

    /// A call of `next`.
    pub open spec fn next(self) -> WalkerStep {
        match self {
            WalkerView::BreadthFirst(state) => WalkerStep {
                state: WalkerView::BreadthFirst(state.next()),
                answer: Ok(state.next().announced()),
            },
            WalkerView::DepthFirst(state) => WalkerStep {
                state: WalkerView::DepthFirst(state.next().state),
                answer: state.next().answer,
            },
        }
    }

    /// The awaited page has been fetched and has these anchors.
    pub open spec fn page_links(self, links: Seq<PageLinkView>) -> WalkerView {
        match self {
            WalkerView::BreadthFirst(state) => WalkerView::BreadthFirst(state.page_links(links)),
            WalkerView::DepthFirst(state) => WalkerView::DepthFirst(state.page_links(links)),
        }
    }

    /// The awaited page could not be fetched. Breadth-first the page is
    /// dropped and the crawl goes on; depth-first the crawl is over.
    pub open spec fn page_failed(self) -> WalkerView {
        match self {
            WalkerView::BreadthFirst(state) => WalkerView::BreadthFirst(state.page_failed()),
            WalkerView::DepthFirst(state) => WalkerView::DepthFirst(state.page_failed()),
        }
    }

    /// The node cap is reached.
    pub open spec fn exhausted(self) -> bool {
        match self {
            WalkerView::BreadthFirst(state) => state.exhausted(),
            WalkerView::DepthFirst(state) => state.exhausted(),
        }
    }

    /// The caps of the crawl.
    pub open spec fn limits(self) -> Limits {
        match self {
            WalkerView::BreadthFirst(state) => state.limits,
            WalkerView::DepthFirst(state) => state.limits,
        }
    }

    /// No page that waits to be fetched, or has anchors left to visit, lies
    /// below the depth cap.
    pub open spec fn within_depth(self) -> bool {
        match self {
            WalkerView::BreadthFirst(state) => state.within_depth(),
            WalkerView::DepthFirst(state) => state.within_depth(),
        }
    }

    /// The crawl after one event.
    pub open spec fn step(self, event: CrawlEvent) -> WalkerView {
        match event {
            CrawlEvent::Next => self.next().state,
            CrawlEvent::PageLinks(links) => self.page_links(links),
            CrawlEvent::PageFailed => self.page_failed(),
        }
    }

    /// The crawl after a run of events, the first event first.
    pub open spec fn after(self, events: Seq<CrawlEvent>) -> WalkerView
        decreases events.len(),
    {
        if events.len() == 0 {
            self
        } else {
            self.after(events.drop_last()).step(events.last())
        }
    }

    /// The error that a failed fetch ends the crawl with: none
    /// breadth-first.
    pub open spec fn fetch_failure(self, detail: Seq<char>) -> Option<CrawlErrorView> {
        match self {
            WalkerView::BreadthFirst(_) => None,
            WalkerView::DepthFirst(_) => Some(CrawlErrorView::Fetch(detail)),
        }
    }
}

impl View for Walker {
    type V = WalkerView;

    open spec fn view(&self) -> WalkerView {
        match self {
            Walker::BreadthFirst(walker) => WalkerView::BreadthFirst(walker@),
            Walker::DepthFirst(walker) => WalkerView::DepthFirst(walker@),
        }
    }
}

impl Walker {
    pub open spec fn wf(&self) -> bool {
        match self {
            Walker::BreadthFirst(walker) => walker.wf(),
            Walker::DepthFirst(walker) => walker.wf(),
        }
    }

    /// A walker of the configured strategy that starts from the URL `seed`
    /// at depth 0 in group 0. A seed that is not an absolute URL is refused.
    pub fn start(db: Db, seed: &str, config: CrawlConfig) -> (out: Result<Walker, CrawlError>)
        requires
            db.wf(),
            config.wf(),
        ensures
            match out {
                Ok(walker) => absolute_url(seed@) matches Some(url) && walker.wf() && walker@
                    == WalkerView::initial(
                    db@,
                    ItemView { url, depth: 0, group: 0 },
                    config.limits,
                    config.grouping,
                    config.selector_rule@,
                    config.strategy,
                ),
                Err(e) => absolute_url(seed@) is None && e@ == (CrawlErrorView::Resolution {
                    base: Seq::empty(),
                    href: seed@,
                }),
            },
    {
        let CrawlConfig { limits, selector_rule, strategy, grouping } = config;
        match strategy {
            Strategy::BreadthFirst => {
                match BfsWalker::start(db, seed, limits, grouping, selector_rule) {
                    Ok(walker) => Ok(Walker::BreadthFirst(walker)),
                    Err(e) => Err(e),
                }
            },
            Strategy::DepthFirst => {
                match DfsWalker::start(db, seed, limits, grouping, selector_rule) {
                    Ok(walker) => Ok(Walker::DepthFirst(walker)),
                    Err(e) => Err(e),
                }
            },
        }
    }

    /// The URL of the page to fetch next, or `None` when the crawl is over,
    /// or the error that ends it.
    pub fn next(&mut self) -> (out: Result<Option<String>, CrawlError>)
        requires
            old(self).wf(),
        ensures
            final(self).wf(),
            final(self)@ == old(self)@.next().state,
            answer_view(out) == old(self)@.next().answer,
    {
        match self {
            Walker::BreadthFirst(walker) => Ok(walker.next()),
            Walker::DepthFirst(walker) => walker.next(),
        }
    }

    /// Reports the anchors of the awaited page, already resolved.
    pub fn page_links(&mut self, links: Vec<PageLink>)
        requires
            old(self).wf(),
        ensures
            final(self).wf(),
            final(self)@ == old(self)@.page_links(links.deep_view()),
    {
        match self {
            Walker::BreadthFirst(walker) => walker.page_links(links),
            Walker::DepthFirst(walker) => walker.page_links(links),
        }
    }

    /// Reports the text of the awaited page.
    pub fn page_text(&mut self, text: &str)
        requires
            old(self).wf(),
        ensures
            final(self).wf(),
            final(self)@ == old(self)@.page_links(
                match old(self)@.awaiting() {
                    Some(page) => links_of(page.url, anchor_hrefs(text@, old(self)@.rule())),
                    None => Seq::empty(),
                },
            ),
    {
        match self {
            Walker::BreadthFirst(walker) => walker.page_text(text),
            Walker::DepthFirst(walker) => walker.page_text(text),
        }
    }

    /// Reports that the awaited page could not be fetched, and why. The
    /// answer is the error that ends the crawl, if the failure ends it.
    pub fn page_failed(&mut self, detail: String) -> (e: Option<CrawlError>)
        requires
            old(self).wf(),
        ensures
            final(self).wf(),
            final(self)@ == old(self)@.page_failed(),
            e.deep_view() == old(self)@.fetch_failure(detail@),
    {
        match self {
            Walker::BreadthFirst(walker) => {
                walker.page_failed();
                None
            },
            Walker::DepthFirst(walker) => Some(walker.page_failed(detail)),
        }
    }

    /// Ends the crawl and hands the store over.
    pub fn finish(self) -> (db: Db)
        requires
            self.wf(),
        ensures
            db.wf(),
            db@ == self@.graph(),
    {
        match self {
            Walker::BreadthFirst(walker) => walker.finish(),
            Walker::DepthFirst(walker) => walker.finish(),
        }
    }
}

} // verus!
