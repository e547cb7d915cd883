//! The depth-first walker: a stack of anchors still to visit, the next one
//! on top.
//!
//! The walker does no fetching. `next` visits anchors until a page has to be
//! fetched and hands out its URL; the caller fetches it and reports back with
//! `page_text` (or with `page_links`, when the anchors are already resolved)
//! or `page_failed`. The first page that cannot be fetched and the first href
//! that cannot be resolved end the crawl with an error.

use crate::error::{CrawlError, CrawlErrorView};
use crate::extract::{anchor_hrefs, SelectorRule};
use crate::graph::{Db, GraphView};
use crate::policy::{Grouping, Limits};
use crate::resolve::{absolute_url, links_of, normalize, resolve_anchors, PageLink, PageLinkView};
use crate::visit::{visit_link, visited, FrontierItem, ItemView, Visit, VisitView};
use vstd::prelude::*;

verus! {

/// An anchor still to visit: the page it stands on, by its place among the
/// fetched pages, and the anchor.
struct Work {
    page: usize,
    link: PageLink,
}

/// The state of a depth-first crawl.
pub struct DfsWalker {
    db: Db,
    limits: Limits,
    grouping: Grouping,
    rule: SelectorRule,
    pages: Vec<FrontierItem>,
    work: Vec<Work>,
    awaiting: Option<FrontierItem>,
}

/// An anchor still to visit, and the page it stands on.
pub struct WorkView {
    pub page: ItemView,
    pub link: PageLinkView,
}

/// The mathematical content of a depth-first crawl.
pub struct DfsView {
    /// What has been discovered.
    pub graph: GraphView,
    /// The anchors still to visit, the next one last.
    pub stack: Seq<WorkView>,
    /// The page handed out for fetching and not yet reported back.
    pub awaiting: Option<ItemView>,
    pub limits: Limits,
    pub grouping: Grouping,
    pub rule: Seq<char>,
}

/// A crawl after a call of `next`, and what the call answered: the URL to
/// fetch, or none when the crawl is over, or the error that ended it.
pub struct DfsStep {
    pub state: DfsView,
    pub answer: Result<Option<Seq<char>>, CrawlErrorView>,
}

/// The anchors of a page as they go onto the stack: the first anchor of the
/// page last, so that it is visited first.
pub open spec fn stacked(page: ItemView, links: Seq<PageLinkView>) -> Seq<WorkView> {
    Seq::new(links.len(), |i: int| WorkView { page, link: links[links.len() - 1 - i] })
}

impl DfsView {
    pub open spec fn well_formed(self) -> bool {
        &&& self.graph.well_formed()
        &&& forall|i: int|
            0 <= i < self.stack.len() ==> (#[trigger] self.stack[i]).page.admissible(self.limits)
        &&& self.awaiting matches Some(page) ==> page.admissible(self.limits)
    }

    /// The node cap is reached: nothing more is fetched or visited.
    pub open spec fn exhausted(self) -> bool {
        self.limits.node_cap_reached(self.graph.size())
    }

    /// No fetched page with anchors left and no page that waits to be
    /// fetched lies below the depth cap.
    pub open spec fn within_depth(self) -> bool {
        &&& forall|i: int|
            0 <= i < self.stack.len() ==> (#[trigger] self.stack[i]).page.depth
                <= self.limits.max_depth
        &&& self.awaiting matches Some(page) ==> page.depth <= self.limits.max_depth
    }

    /// The crawl as a fresh walker holds it: the seed is awaited.
    pub open spec fn initial(
        graph: GraphView,
        seed: ItemView,
        limits: Limits,
        grouping: Grouping,
        rule: Seq<char>,
    ) -> DfsView {
        DfsView { graph, stack: Seq::empty(), awaiting: Some(seed), limits, grouping, rule }
    }

    /// Visits the anchors on the stack, from the top, until one of these:
    /// the node cap is reached or the stack is empty, and the crawl is over;
    /// an href did not resolve, and the crawl ends with an error and an empty
    /// stack; a visit found a page to expand, which is then awaited.
    pub open spec fn run(self) -> DfsStep
        decreases self.stack.len(),
    {
        if self.exhausted() || self.stack.len() == 0 {
            DfsStep { state: self, answer: Ok(None) }
        } else {
            let work = self.stack.last();
            let rest = DfsView { stack: self.stack.drop_last(), ..self };
            match work.link {
                PageLinkView::Missing => rest.run(),
                PageLinkView::Unresolved { raw } => DfsStep {
                    state: DfsView { stack: Seq::empty(), ..self },
                    answer: Err(CrawlErrorView::Resolution { base: work.page.url, href: raw }),
                },
                PageLinkView::Resolved { raw, target } => {
                    let found = visited(
                        self.graph,
                        work.page,
                        raw,
                        target,
                        self.limits,
                        self.grouping,
                    );
                    let grown = DfsView { graph: found.graph, ..rest };
                    match found.outcome {
                        VisitView::Descend(child) => if grown.exhausted() {
                            DfsStep { state: grown, answer: Ok(None) }
                        } else {
                            DfsStep {
                                state: DfsView { awaiting: Some(child), ..grown },
                                answer: Ok(Some(child.url)),
                            }
                        },
                        _ => grown.run(),
                    }
                },
            }
        }
    }

    /// A call of `next`: nothing is fetched once the node cap is reached; an
    /// awaited page is handed out again; otherwise the stack is run.
    pub open spec fn next(self) -> DfsStep {
        if self.exhausted() {
            DfsStep { state: self, answer: Ok(None) }
        } else {
            match self.awaiting {
                Some(page) => DfsStep { state: self, answer: Ok(Some(page.url)) },
                None => self.run(),
            }
        }
    }

    /// The awaited page has been fetched and has these anchors: they go onto
    /// the stack. Without an awaited page nothing happens.
    pub open spec fn page_links(self, links: Seq<PageLinkView>) -> DfsView {
        match self.awaiting {
            None => self,
            Some(page) => DfsView {
                stack: self.stack + stacked(page, links),
                awaiting: None,
                ..self
            },
        }
    }

    /// The awaited page could not be fetched: the crawl is over.
    pub open spec fn page_failed(self) -> DfsView {
        DfsView { stack: Seq::empty(), awaiting: None, ..self }
    }
}

impl View for DfsWalker {
    type V = DfsView;

    closed spec fn view(&self) -> DfsView {
        DfsView {
            graph: self.db@,
            stack: Seq::new(
                self.work.len() as nat,
                |i: int|
                    WorkView {
                        page: self.pages[self.work[i].page as int]@,
                        link: self.work[i].link@,
                    },
            ),
            awaiting: self.awaiting.deep_view(),
            limits: self.limits,
            grouping: self.grouping,
            rule: self.rule@,
        }
    }
}

impl DfsWalker {
    /// The store and the selector rule are consistent, and every anchor on
    /// the stack stands on a fetched page.
    pub closed spec fn inv(&self) -> bool {
        &&& self.db.wf()
        &&& self.rule.wf()
        &&& forall|i: int|
            0 <= i < self.work.len() ==> (#[trigger] self.work[i]).page < self.pages.len()
    }

    pub open spec fn wf(&self) -> bool {
        self.inv() && self@.well_formed()
    }

    /// A walker that starts from `seed` on the store `db`.
    pub fn new(
        db: Db,
        seed: FrontierItem,
        limits: Limits,
        grouping: Grouping,
        rule: SelectorRule,
    ) -> (walker: DfsWalker)
        requires
            db.wf(),
            rule.wf(),
            seed@.admissible(limits),
        ensures
            walker.wf(),
            walker@ == DfsView::initial(db@, seed@, limits, grouping, rule@),
    {
        let walker = DfsWalker {
            db,
            limits,
            grouping,
            rule,
            pages: Vec::new(),
            work: Vec::new(),
            awaiting: Some(seed),
        };
        assert(walker@.stack =~= Seq::empty());
        walker
    }

    /// A walker that starts from the URL `seed` at depth 0 in group 0.
    /// The seed is put into the normal form of absolute URLs; one that is not
    /// an absolute URL is refused.
    pub fn start(
        db: Db,
        seed: &str,
        limits: Limits,
        grouping: Grouping,
        rule: SelectorRule,
    ) -> (out: Result<DfsWalker, CrawlError>)
        requires
            db.wf(),
            limits.wf(),
            rule.wf(),
        ensures
            match out {
                Ok(walker) => absolute_url(seed@) matches Some(url) && walker.wf() && walker@
                    == DfsView::initial(
                    db@,
                    ItemView { url, depth: 0, group: 0 },
                    limits,
                    grouping,
                    rule@,
                ),
                Err(e) => absolute_url(seed@) is None && e@ == (CrawlErrorView::Resolution {
                    base: Seq::empty(),
                    href: seed@,
                }),
            },
    {
        match normalize(seed) {
            Ok(url) => Ok(DfsWalker::new(db, FrontierItem::seed(url), limits, grouping, rule)),
            Err(e) => Err(e),
        }
    }

    /// Forgets the stack and the pages it stood on.
    fn unwind(&mut self)
        requires
            old(self).wf(),
        ensures
            final(self).wf(),
            final(self)@ == (DfsView { stack: Seq::empty(), ..old(self)@ }),
    {
        self.work.clear();
        self.pages.clear();
        assert(self@.stack =~= Seq::empty());
    }

    /// The URL of the page to fetch next, or `None` when the crawl is over,
    /// or the error that ends it. Until the page is reported back the same
    /// URL is handed out again.
    pub fn next(&mut self) -> (out: Result<Option<String>, CrawlError>)
        requires
            old(self).wf(),
        ensures
            final(self).wf(),
            final(self)@ == old(self)@.next().state,
            answer_view(out) == old(self)@.next().answer,
    {
        if self.limits.nodes_exhausted(self.db.size()) {
            return Ok(None);
        }
        match &self.awaiting {
            Some(page) => {
                return Ok(Some(page.url.clone()));
            },
            None => {},
        }
        loop
            invariant
                self.wf(),
                self@.awaiting is None,
                self@.run() == old(self)@.run(),
                old(self)@.next() == old(self)@.run(),
            decreases self.work.len(),
        {
            if self.limits.nodes_exhausted(self.db.size()) {
                return Ok(None);
            }
            let ghost before = self@;
            let work = match self.work.pop() {
                Some(work) => work,
                None => {
                    assert(self@.stack =~= before.stack);
                    return Ok(None);
                },
            };
            proof {
                assert(self@.stack =~= before.stack.drop_last());
                assert(before.stack.last() == (WorkView {
                    page: self.pages[work.page as int]@,
                    link: work.link@,
                }));
            }
            match &work.link {
                PageLink::Missing => {},
                PageLink::Unresolved { raw } => {
                    let e = CrawlError::Resolution {
                        base: self.pages[work.page].url.clone(),
                        href: raw.clone(),
                    };
                    self.unwind();
                    return Err(e);
                },
                PageLink::Resolved { raw, target } => {
                    let outcome = visit_link(
                        &mut self.db,
                        &self.pages[work.page],
                        raw.as_str(),
                        target,
                        &self.limits,
                        self.grouping,
                    );
                    match outcome {
                        Visit::Descend(child) => {
                            if self.limits.nodes_exhausted(self.db.size()) {
                                return Ok(None);
                            }
                            let url = child.url.clone();
                            self.awaiting = Some(child);
                            return Ok(Some(url));
                        },
                        _ => {},
                    }
                },
            }
        }
    }

    /// Reports that the awaited page could not be fetched, and why. The
    /// crawl is over; the answer is the error to report.
    pub fn page_failed(&mut self, detail: String) -> (e: CrawlError)
        requires
            old(self).wf(),
        ensures
            final(self).wf(),
            final(self)@ == old(self)@.page_failed(),
            e@ == CrawlErrorView::Fetch(detail@),
    {
        self.awaiting = None;
        self.unwind();
        CrawlError::Fetch(detail)
    }

    /// Reports the anchors of the awaited page, already resolved.
    pub fn page_links(&mut self, links: Vec<PageLink>)
        requires
            old(self).wf(),
        ensures
            final(self).wf(),
            final(self)@ == old(self)@.page_links(links.deep_view()),
    {
        let page = match self.awaiting.take() {
            Some(page) => page,
            None => {
                return ;
            },
        };
        let ghost begun = self@;
        let ghost all = links.deep_view();
        let ghost shown = page@;
        let slot = self.pages.len();
        self.pages.push(page);
        assert(self@.stack =~= begun.stack);
        let mut links = links;
        while links.len() > 0
            invariant
                self.inv(),
                self@.graph == begun.graph,
                self@.awaiting == begun.awaiting,
                self@.limits == begun.limits,
                self@.grouping == begun.grouping,
                self@.rule == begun.rule,
                slot < self.pages.len(),
                self.pages[slot as int]@ == shown,
                links.len() <= all.len(),
                links.deep_view() =~= all.take(links.len() as int),
                self@.stack =~= begun.stack + stacked(shown, all).take(all.len() - links.len()),
            decreases links.len(),
        {
            let ghost sofar = self@.stack;
            let ghost left = links.deep_view();
            let link = links.pop().unwrap();
            assert(link@ == left[left.len() - 1]);
            assert(links.deep_view() =~= all.take(links.len() as int));
            self.work.push(Work { page: slot, link });
            assert(self@.stack =~= sofar.push(WorkView { page: shown, link: link@ }));
        }
        assert(stacked(shown, all).take(all.len() as int) =~= stacked(shown, all));
    }

    /// Reports the text of the awaited page: its anchors are picked out by
    /// the selector rule, resolved against the URL of the page and put onto
    /// the stack.
    pub fn page_text(&mut self, text: &str)
        requires
            old(self).wf(),
        ensures
            final(self).wf(),
            final(self)@ == old(self)@.page_links(
                match old(self)@.awaiting {
                    Some(page) => links_of(page.url, anchor_hrefs(text@, old(self)@.rule)),
                    None => Seq::empty(),
                },
            ),
    {
        let links = match &self.awaiting {
            Some(page) => {
                let hrefs = self.rule.anchors(text);
                resolve_anchors(page.url.as_str(), &hrefs)
            },
            None => Vec::new(),
        };
        self.page_links(links);
    }

    /// The store as it stands.
    pub fn db(&self) -> (db: &Db)
        requires
            self.wf(),
        ensures
            db.wf(),
            db@ == self@.graph,
    {
        &self.db
    }

    /// Ends the crawl and hands the store over.
    pub fn finish(self) -> (db: Db)
        requires
            self.wf(),
        ensures
            db.wf(),
            db@ == self@.graph,
    {
        self.db
    }
}

/// What `next` answered, as plain values.
pub open spec fn answer_view(out: Result<Option<String>, CrawlError>) -> Result<
    Option<Seq<char>>,
    CrawlErrorView,
> {
    match out {
        Ok(url) => Ok(url.deep_view()),
        Err(e) => Err(e@),
    }
}

} // verus!
