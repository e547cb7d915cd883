//! What happens to one resolved link of a page: the steps that both walkers
//! share.

use crate::graph::{Db, GraphView, Link, Node};
use crate::policy::{classified, classify, Grouping, Limits};
use crate::resolve::{ResolvedUrl, ResolvedView};
use vstd::prelude::*;

verus! {

/// A page waiting to be expanded.
#[derive(Debug, Clone)]
pub struct FrontierItem {
    pub url: String,
    pub depth: i32,
    pub group: i32,
}

pub struct ItemView {
    pub url: Seq<char>,
    pub depth: int,
    pub group: int,
}

impl ItemView {
    /// The 32-bit counters of the item leave room for every level that can
    /// still follow it: the group can be raised once on this page and once
    /// more on each level down to the depth cap.
    pub open spec fn admissible(self, limits: Limits) -> bool {
        self.group < i32::MAX && self.group - self.depth < i32::MAX - limits.max_depth
    }
}

impl View for FrontierItem {
    type V = ItemView;

    open spec fn view(&self) -> ItemView {
        ItemView { url: self.url@, depth: self.depth as int, group: self.group as int }
    }
}

impl DeepView for FrontierItem {
    type V = ItemView;

    open spec fn deep_view(&self) -> ItemView {
        self@
    }
}

impl FrontierItem {
    /// The item a crawl starts from.
    pub fn seed(url: String) -> (item: FrontierItem)
        ensures
            item@ == (ItemView { url: url@, depth: 0, group: 0 }),
    {
        FrontierItem { url, depth: 0, group: 0 }
    }

}

/// What a link turned out to be.
#[derive(Debug, Clone)]
pub enum Visit {
    /// The link was already recorded: nothing changed.
    DuplicateLink,
    /// The link is new, its target was already a node.
    KnownNode,
    /// The link and its target are new; the page is too deep to schedule the
    /// target.
    Recorded,
    /// The link and its target are new, and the target is to be expanded.
    Descend(FrontierItem),
}

pub enum VisitView {
    DuplicateLink,
    KnownNode,
    Recorded,
    Descend(ItemView),
}

impl View for Visit {
    type V = VisitView;

    open spec fn view(&self) -> VisitView {
        match self {
            Visit::DuplicateLink => VisitView::DuplicateLink,
            Visit::KnownNode => VisitView::KnownNode,
            Visit::Recorded => VisitView::Recorded,
            Visit::Descend(child) => VisitView::Descend(child@),
        }
    }
}

/// A graph after a visit, and what the visit found.
pub struct Visited {
    pub graph: GraphView,
    pub outcome: VisitView,
}

/// The visit of one link: `raw` is the href as written on `page`, `target`
/// what it resolved to.
///
/// A link that is already recorded changes nothing. A new link is recorded;
/// if its target is a known node, that is all. A new target becomes a node
/// of the classified group and its host is recorded; it is scheduled one
/// level below the page unless the page has reached the depth cap.
pub open spec fn visited(
    graph: GraphView,
    page: ItemView,
    raw: Seq<char>,
    target: ResolvedView,
    limits: Limits,
    grouping: Grouping,
) -> Visited {
    let group = classified(grouping, raw, graph.hosts, page.group);
    if graph.has_link(page.url, target.url) {
        Visited { graph, outcome: VisitView::DuplicateLink }
    } else {
        let linked = graph.with_link(page.url, target.url);
        if linked.has_node(target.url) {
            Visited { graph: linked, outcome: VisitView::KnownNode }
        } else {
            let grown = linked.with_node(target.url, group).with_host(target.host);
            if limits.depth_cap_reached(page.depth) {
                Visited { graph: grown, outcome: VisitView::Recorded }
            } else {
                Visited {
                    graph: grown,
                    outcome: VisitView::Descend(
                        ItemView { url: target.url, depth: page.depth + 1, group },
                    ),
                }
            }
        }
    }
}

/// Visits one link of `page`.
pub fn visit_link(
    db: &mut Db,
    page: &FrontierItem,
    raw: &str,
    target: &ResolvedUrl,
    limits: &Limits,
    grouping: Grouping,
) -> (outcome: Visit)
    requires
        old(db).wf(),
        page@.admissible(*limits),
    ensures
        final(db).wf(),
        final(db)@ == visited(old(db)@, page@, raw@, target@, *limits, grouping).graph,
        outcome@ == visited(old(db)@, page@, raw@, target@, *limits, grouping).outcome,
        outcome matches Visit::Descend(child) ==> child@.admissible(*limits),
{
    let group = classify(grouping, raw, db, page.group);
    if db.contains_link(page.url.as_str(), target.url.as_str()) {
        return Visit::DuplicateLink;
    }
    db.insert_link(Link { source: page.url.clone(), target: target.url.clone() });
    if db.contains_node(target.url.as_str()) {
        return Visit::KnownNode;
    }
    db.insert_node(Node { url: target.url.clone(), group });
    db.record_host(target.host.clone());
    if limits.depth_exhausted(page.depth) {
        Visit::Recorded
    } else {
        Visit::Descend(FrontierItem { url: target.url.clone(), depth: page.depth + 1, group })
    }
}

} // verus!
