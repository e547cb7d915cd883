//! The breadth-first walker: a queue of pages, expanded one at a time.
//!
//! The walker does no fetching. `next` hands out the URL of the page to
//! fetch; the caller fetches it and reports back with `page_text` (or with
//! `page_links`, when the anchors are already resolved) or `page_failed`.
//! A page that cannot be fetched is dropped and the crawl goes on.

use crate::error::{CrawlError, CrawlErrorView};
use crate::extract::{anchor_hrefs, SelectorRule};
use crate::graph::{Db, GraphView};
use crate::policy::{Grouping, Limits};
use crate::resolve::{absolute_url, links_of, normalize, resolve_anchors, PageLink, PageLinkView};
use crate::visit::{visit_link, visited, FrontierItem, ItemView, Visit, VisitView};
use std::collections::VecDeque;
use vstd::prelude::*;

verus! {

/// The state of a breadth-first crawl.
pub struct BfsWalker {
    db: Db,
    limits: Limits,
    grouping: Grouping,
    rule: SelectorRule,
    queue: VecDeque<FrontierItem>,
    awaiting: Option<FrontierItem>,
}

/// The mathematical content of a breadth-first crawl.
pub struct BfsView {
    /// What has been discovered.
    pub graph: GraphView,
    /// The pages still to expand, the next one first.
    pub queue: Seq<ItemView>,
    /// The page handed out for fetching and not yet reported back.
    pub awaiting: Option<ItemView>,
    pub limits: Limits,
    pub grouping: Grouping,
    pub rule: Seq<char>,
}

impl BfsView {
    pub open spec fn well_formed(self) -> bool {
        &&& self.graph.well_formed()
        &&& forall|i: int|
            0 <= i < self.queue.len() ==> (#[trigger] self.queue[i]).admissible(self.limits)
        &&& self.awaiting matches Some(page) ==> page.admissible(self.limits)
    }

    /// The node cap is reached: nothing more is fetched or expanded.
    pub open spec fn exhausted(self) -> bool {
        self.limits.node_cap_reached(self.graph.size())
    }

    /// No page that waits to be fetched lies below the depth cap.
    pub open spec fn within_depth(self) -> bool {
        &&& forall|i: int|
            0 <= i < self.queue.len() ==> (#[trigger] self.queue[i]).depth
                <= self.limits.max_depth
        &&& self.awaiting matches Some(page) ==> page.depth <= self.limits.max_depth
    }

    /// The crawl as a fresh walker holds it.
    pub open spec fn initial(
        graph: GraphView,
        seed: ItemView,
        limits: Limits,
        grouping: Grouping,
        rule: Seq<char>,
    ) -> BfsView {
        BfsView { graph, queue: seq![seed], awaiting: None, limits, grouping, rule }
    }

    /// One anchor of `page`: an anchor without an href or with an href that
    /// does not resolve is passed over; a resolved one is visited, and a
    /// target to expand joins the back of the queue.
    pub open spec fn visit(self, page: ItemView, link: PageLinkView) -> BfsView {
        match link {
            PageLinkView::Resolved { raw, target } => {
                let found = visited(self.graph, page, raw, target, self.limits, self.grouping);
                BfsView {
                    graph: found.graph,
                    queue: match found.outcome {
                        VisitView::Descend(child) => self.queue.push(child),
                        _ => self.queue,
                    },
                    ..self
                }
            },
            _ => self,
        }
    }

    /// The anchors of `page` from position `from` on, in order, until they
    /// run out or the node cap is reached.
    pub open spec fn expand(self, page: ItemView, links: Seq<PageLinkView>, from: int) -> BfsView
        decreases links.len() - from,
    {
        if from < 0 || from >= links.len() || self.exhausted() {
            self
        } else {
            self.visit(page, links[from]).expand(page, links, from + 1)
        }
    }

    /// The awaited page has been fetched and has these anchors: their number
    /// is entered in the frequency table and they are expanded. Without an
    /// awaited page nothing happens.
    pub open spec fn page_links(self, links: Seq<PageLinkView>) -> BfsView {
        match self.awaiting {
            None => self,
            Some(page) => (BfsView {
                graph: self.graph.with_frequency(page.url, self.limits.capped_count(links.len())),
                awaiting: None,
                ..self
            }).expand(page, links, 0),
        }
    }

    /// The awaited page could not be fetched: it is dropped.
    pub open spec fn page_failed(self) -> BfsView {
        BfsView { awaiting: None, ..self }
    }

    /// The front of the queue becomes the awaited page, unless the node cap
    /// is reached, a page is still awaited or the queue is empty.
    pub open spec fn next(self) -> BfsView {
        if self.exhausted() || self.awaiting is Some || self.queue.len() == 0 {
            self
        } else {
            BfsView { queue: self.queue.drop_first(), awaiting: Some(self.queue[0]), ..self }
        }
    }

    /// The URL to fetch in this state: that of the awaited page, and none
    /// once the node cap is reached.
    pub open spec fn announced(self) -> Option<Seq<char>> {
        if self.exhausted() {
            None
        } else {
            match self.awaiting {
                Some(page) => Some(page.url),
                None => None,
            }
        }
    }
}

impl View for BfsWalker {
    type V = BfsView;

    closed spec fn view(&self) -> BfsView {
        BfsView {
            graph: self.db@,
            queue: self.queue.deep_view(),
            awaiting: self.awaiting.deep_view(),
            limits: self.limits,
            grouping: self.grouping,
            rule: self.rule@,
        }
    }
}

impl BfsWalker {
    /// The store and the selector rule are consistent.
    pub closed spec fn inv(&self) -> bool {
        self.db.wf() && self.rule.wf()
    }

    pub open spec fn wf(&self) -> bool {
        self.inv() && self@.well_formed()
    }

    /// A walker that starts from `seed` on the store `db`.
    pub fn new(
        db: Db,
        seed: FrontierItem,
        limits: Limits,
        grouping: Grouping,
        rule: SelectorRule,
    ) -> (walker: BfsWalker)
        requires
            db.wf(),
            rule.wf(),
            seed@.admissible(limits),
        ensures
            walker.wf(),
            walker@ == BfsView::initial(db@, seed@, limits, grouping, rule@),
    {
        let mut queue: VecDeque<FrontierItem> = VecDeque::new();
        queue.push_back(seed);
        let walker = BfsWalker { db, limits, grouping, rule, queue, awaiting: None };
        assert(walker@.queue =~= seq![seed@]);
        walker
    }

    /// A walker that starts from the URL `seed` at depth 0 in group 0.
    /// The seed is put into the normal form of absolute URLs; one that is not
    /// an absolute URL is refused.
    pub fn start(
        db: Db,
        seed: &str,
        limits: Limits,
        grouping: Grouping,
        rule: SelectorRule,
    ) -> (out: Result<BfsWalker, CrawlError>)
        requires
            db.wf(),
            limits.wf(),
            rule.wf(),
        ensures
            match out {
                Ok(walker) => absolute_url(seed@) matches Some(url) && walker.wf() && walker@
                    == BfsView::initial(
                    db@,
                    ItemView { url, depth: 0, group: 0 },
                    limits,
                    grouping,
                    rule@,
                ),
                Err(e) => absolute_url(seed@) is None && e@ == (CrawlErrorView::Resolution {
                    base: Seq::empty(),
                    href: seed@,
                }),
            },
    {
        match normalize(seed) {
            Ok(url) => Ok(BfsWalker::new(db, FrontierItem::seed(url), limits, grouping, rule)),
            Err(e) => Err(e),
        }
    }

    /// The URL of the page to fetch next, or `None` when the crawl is over:
    /// the queue is empty or the node cap is reached. Until the page is
    /// reported back the same URL is handed out again.
    pub fn next(&mut self) -> (url: Option<String>)
        requires
            old(self).wf(),
        ensures
            final(self).wf(),
            final(self)@ == old(self)@.next(),
            url.deep_view() == final(self)@.announced(),
    {
        if self.limits.nodes_exhausted(self.db.size()) {
            return None;
        }
        if self.awaiting.is_none() {
            let front = self.queue.pop_front();
            proof {
                if front is Some {
                    assert(self@.queue =~= old(self)@.queue.drop_first());
                    assert(front->0@ == old(self)@.queue[0]);
                } else {
                    assert(self@.queue =~= old(self)@.queue);
                }
            }
            self.awaiting = front;
        }
        match &self.awaiting {
            Some(page) => Some(page.url.clone()),
            None => None,
        }
    }

    /// Reports that the awaited page could not be fetched. The page is
    /// dropped; the crawl goes on.
    pub fn page_failed(&mut self)
        requires
            old(self).wf(),
        ensures
            final(self).wf(),
            final(self)@ == old(self)@.page_failed(),
    {
        self.awaiting = None;
    }

    /// Visits one anchor of `page`.
    pub fn visit(&mut self, page: &FrontierItem, link: &PageLink)
        requires
            old(self).wf(),
            page@.admissible(old(self)@.limits),
        ensures
            final(self).wf(),
            final(self)@ == old(self)@.visit(page@, link@),
    {
        match link {
            PageLink::Resolved { raw, target } => {
                let outcome = visit_link(
                    &mut self.db,
                    page,
                    raw.as_str(),
                    target,
                    &self.limits,
                    self.grouping,
                );
                match outcome {
                    Visit::Descend(child) => {
                        self.queue.push_back(child);
                        assert(self@.queue =~= old(self)@.queue.push(child@));
                    },
                    _ => {},
                }
            },
            _ => {},
        }
    }

    /// Reports the anchors of the awaited page, already resolved.
    pub fn page_links(&mut self, links: Vec<PageLink>)
        requires
            old(self).wf(),
        ensures
            final(self).wf(),
            final(self)@ == old(self)@.page_links(links.deep_view()),
    {
        let page = match self.awaiting.take() {
            Some(page) => page,
            None => {
                return ;
            },
        };
        let count = self.limits.cap_count(links.len());
        self.db.record_frequency(page.url.clone(), count);
        let ghost begun = self@;
        let mut i: usize = 0;
        while i < links.len() && !self.limits.nodes_exhausted(self.db.size())
            invariant
                self.wf(),
                page@.admissible(self@.limits),
                self@.limits == begun.limits,
                i <= links.len(),
                self@.expand(page@, links.deep_view(), i as int) == begun.expand(
                    page@,
                    links.deep_view(),
                    0,
                ),
            decreases links.len() - i,
        {
            self.visit(&page, &links[i]);
            i += 1;
        }
    }

    /// Reports the text of the awaited page: its anchors are picked out by
    /// the selector rule, resolved against the URL of the page and expanded.
    pub fn page_text(&mut self, text: &str)
        requires
            old(self).wf(),
        ensures
            final(self).wf(),
            final(self)@ == old(self)@.page_links(
                match old(self)@.awaiting {
                    Some(page) => links_of(page.url, anchor_hrefs(text@, old(self)@.rule)),
                    None => Seq::empty(),
                },
            ),
    {
        let links = match &self.awaiting {
            Some(page) => {
                let hrefs = self.rule.anchors(text);
                resolve_anchors(page.url.as_str(), &hrefs)
            },
            None => Vec::new(),
        };
        self.page_links(links);
    }

    /// The store as it stands.
    pub fn db(&self) -> (db: &Db)
        requires
            self.wf(),
        ensures
            db.wf(),
            db@ == self@.graph,
    {
        &self.db
    }

    /// Ends the crawl and hands the store over.
    pub fn finish(self) -> (db: Db)
        requires
            self.wf(),
        ensures
            db.wf(),
            db@ == self@.graph,
    {
        self.db
    }
}

} // verus!
