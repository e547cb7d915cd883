//! What holds of every crawl: proved once, over the mathematical content of
//! the store and of the two walkers.

use crate::bfs::BfsView;
use crate::crawler::{CrawlEvent, WalkerView};
use crate::dfs::{stacked, DfsView};
use crate::graph::GraphView;
use crate::policy::{Grouping, Limits};
use crate::resolve::{PageLinkView, ResolvedView};
use crate::visit::{visited, ItemView, VisitView};
use vstd::prelude::*;

verus! {

/// The larger of a store's size and the node cap.
pub open spec fn size_bound(size: nat, limits: Limits) -> int {
    if size >= limits.max_nodes {
        size as int
    } else {
        limits.max_nodes as int
    }
}

/// Where the nodes of one store begin the nodes of another that holds no URL
/// twice, a URL known to the first is known to the second, with the same
/// group.
pub proof fn law_prefix_keeps_groups(before: GraphView, after: GraphView, url: Seq<char>)
    requires
        before.nodes.is_prefix_of(after.nodes),
        after.well_formed(),
        before.has_node(url),
    ensures
        after.has_node(url),
        after.group_of(url) == before.group_of(url),
{
    let i = choose|i: int| before.node_at(url, i);
    assert(before.node_at(url, i));
    assert(after.nodes[i] == before.nodes[i]);
    assert(after.node_at(url, i));
    let j = choose|j: int| after.node_at(url, j);
    assert(after.node_at(url, j));
    if i < j {
        assert(after.nodes[i].url != after.nodes[j].url);
    }
    if j < i {
        assert(after.nodes[j].url != after.nodes[i].url);
    }
}

/// A visit leaves the store without an entry that occurs twice: in
/// particular, at most one link leads from one page to another.
pub proof fn law_visit_keeps_entries_unique(
    graph: GraphView,
    page: ItemView,
    raw: Seq<char>,
    target: ResolvedView,
    limits: Limits,
    grouping: Grouping,
)
    requires
        graph.well_formed(),
    ensures
        visited(graph, page, raw, target, limits, grouping).graph.well_formed(),
{
    let linked = graph.with_link(page.url, target.url);
    assert(linked.well_formed());
    let group = crate::policy::classified(grouping, raw, graph.hosts, page.group);
    let noded = linked.with_node(target.url, group);
    assert(noded.well_formed()) by {
        if !linked.has_node(target.url) {
            assert forall|i: int| 0 <= i < linked.nodes.len() implies (
            #[trigger] linked.nodes[i]).url != target.url by {
                if linked.nodes[i].url == target.url {
                    assert(linked.node_at(target.url, i));
                }
            }
        }
    }
    assert(noded.with_host(target.host).well_formed());
}

/// A link whose target is already a node adds no node and changes no
/// recorded group: the nodes are exactly what they were.
pub proof fn law_known_target_adds_no_node(
    graph: GraphView,
    page: ItemView,
    raw: Seq<char>,
    target: ResolvedView,
    limits: Limits,
    grouping: Grouping,
)
    requires
        graph.has_node(target.url),
    ensures
        visited(graph, page, raw, target, limits, grouping).graph.nodes == graph.nodes,
        !(visited(graph, page, raw, target, limits, grouping).outcome is Descend),
{
    let i = choose|i: int| graph.node_at(target.url, i);
    let linked = graph.with_link(page.url, target.url);
    assert(linked.node_at(target.url, i));
}

/// A visit adds at most one node, behind those found before, and every node
/// found before keeps its group.
pub proof fn law_visit_keeps_nodes(
    graph: GraphView,
    page: ItemView,
    raw: Seq<char>,
    target: ResolvedView,
    limits: Limits,
    grouping: Grouping,
)
    requires
        graph.well_formed(),
    ensures
        graph.nodes.is_prefix_of(visited(graph, page, raw, target, limits, grouping).graph.nodes),
        visited(graph, page, raw, target, limits, grouping).graph.size() <= graph.size() + 1,
        forall|url: Seq<char>| #[trigger]
            graph.has_node(url) ==> {
                let after = visited(graph, page, raw, target, limits, grouping).graph;
                after.has_node(url) && after.group_of(url) == graph.group_of(url)
            },
{
    let after = visited(graph, page, raw, target, limits, grouping).graph;
    law_visit_keeps_entries_unique(graph, page, raw, target, limits, grouping);
    assert(graph.nodes.is_prefix_of(after.nodes));
    assert forall|url: Seq<char>| #[trigger] graph.has_node(url) implies after.has_node(url)
        && after.group_of(url) == graph.group_of(url) by {
        law_prefix_keeps_groups(graph, after, url);
    }
}

/// The same link met a second time, as when a page holds one href twice,
/// changes nothing: the store keeps the one link it has.
pub proof fn law_repeated_link_changes_nothing(
    graph: GraphView,
    page: ItemView,
    raw: Seq<char>,
    again: Seq<char>,
    target: ResolvedView,
    limits: Limits,
    grouping: Grouping,
)
    ensures
        ({
            let first = visited(graph, page, raw, target, limits, grouping).graph;
            let second = visited(first, page, again, target, limits, grouping);
            second.graph == first && second.outcome == VisitView::DuplicateLink
        }),
{
    let first = visited(graph, page, raw, target, limits, grouping).graph;
    let pair = crate::graph::LinkView { source: page.url, target: target.url };
    if !graph.has_link(page.url, target.url) {
        let linked = graph.with_link(page.url, target.url);
        assert(linked.links[graph.links.len() as int] == pair);
        assert(linked.has_link(page.url, target.url));
        assert(first.links == linked.links);
    }
    assert(first.has_link(page.url, target.url));
}

/// On a page that has reached the depth cap a new target is still recorded
/// as a node, with its link, and nothing is scheduled from it.
pub proof fn law_depth_cap_records_without_descending(
    graph: GraphView,
    page: ItemView,
    raw: Seq<char>,
    target: ResolvedView,
    limits: Limits,
    grouping: Grouping,
)
    requires
        limits.depth_cap_reached(page.depth),
    ensures
        !(visited(graph, page, raw, target, limits, grouping).outcome is Descend),
        !graph.has_link(page.url, target.url) ==> {
            let after = visited(graph, page, raw, target, limits, grouping).graph;
            after.has_link(page.url, target.url) && after.has_node(target.url)
        },
{
    if !graph.has_link(page.url, target.url) {
        let linked = graph.with_link(page.url, target.url);
        let pair = crate::graph::LinkView { source: page.url, target: target.url };
        assert(linked.links[graph.links.len() as int] == pair);
        assert(linked.has_link(page.url, target.url));
        if !linked.has_node(target.url) {
            let group = crate::policy::classified(grouping, raw, graph.hosts, page.group);
            let noded = linked.with_node(target.url, group);
            assert(noded.node_at(target.url, linked.nodes.len() as int));
            let hosted = noded.with_host(target.host);
            assert(hosted.node_at(target.url, linked.nodes.len() as int));
            assert(hosted.has_link(page.url, target.url));
        }
    }
}

/// A page is scheduled only below the depth cap: what a visit schedules lies
/// one level below its page, at the cap at most, in the group of the page or
/// the next.
pub proof fn law_scheduled_within_depth(
    graph: GraphView,
    page: ItemView,
    raw: Seq<char>,
    target: ResolvedView,
    limits: Limits,
    grouping: Grouping,
)
    ensures
        visited(graph, page, raw, target, limits, grouping).outcome matches VisitView::Descend(
            child,
        ) ==> child.depth == page.depth + 1 && child.depth <= limits.max_depth && page.group
            <= child.group <= page.group + 1 && child.url == target.url,
{
}

/// Entering a count keeps the store without an entry that occurs twice.
proof fn lemma_count_keeps_entries_unique(graph: GraphView, url: Seq<char>, count: int)
    requires
        graph.well_formed(),
    ensures
        graph.with_frequency(url, count).well_formed(),
        graph.with_frequency(url, count).nodes == graph.nodes,
{
    let after = graph.with_frequency(url, count);
    if graph.has_frequency(url) {
        let c = choose|i: int| graph.frequency_at(url, i);
        assert(graph.frequency_at(url, c));
        assert forall|i: int| 0 <= i < after.frequencies.len() implies (
        #[trigger] after.frequencies[i]).url == graph.frequencies[i].url by {}
        assert forall|i: int, j: int| 0 <= i < j < after.frequencies.len() implies (
        #[trigger] after.frequencies[i]).url != (#[trigger] after.frequencies[j]).url by {
            assert(graph.frequencies[i].url != graph.frequencies[j].url);
        }
    } else {
        assert forall|i: int| 0 <= i < graph.frequencies.len() implies (
        #[trigger] graph.frequencies[i]).url != url by {
            if graph.frequencies[i].url == url {
                assert(graph.frequency_at(url, i));
            }
        }
    }
}

/// What one anchor does to a breadth-first crawl.
proof fn lemma_bfs_visit(state: BfsView, page: ItemView, link: PageLinkView)
    requires
        state.well_formed(),
        page.admissible(state.limits),
    ensures
        state.visit(page, link).well_formed(),
        state.graph.nodes.is_prefix_of(state.visit(page, link).graph.nodes),
        state.visit(page, link).graph.size() <= state.graph.size() + 1,
        state.queue.is_prefix_of(state.visit(page, link).queue),
        state.limits.depth_cap_reached(page.depth) ==> state.visit(page, link).queue
            == state.queue,
        state.visit(page, link).awaiting == state.awaiting,
        state.visit(page, link).limits == state.limits,
{
    match link {
        PageLinkView::Resolved { raw, target } => {
            law_visit_keeps_nodes(state.graph, page, raw, target, state.limits, state.grouping);
            law_visit_keeps_entries_unique(
                state.graph,
                page,
                raw,
                target,
                state.limits,
                state.grouping,
            );
        },
        _ => {},
    }
}

/// What the anchors of a page do to a breadth-first crawl.
proof fn lemma_bfs_expand(state: BfsView, page: ItemView, links: Seq<PageLinkView>, from: int)
    requires
        state.well_formed(),
        page.admissible(state.limits),
    ensures
        state.expand(page, links, from).well_formed(),
        state.graph.nodes.is_prefix_of(state.expand(page, links, from).graph.nodes),
        state.expand(page, links, from).graph.size() <= size_bound(
            state.graph.size(),
            state.limits,
        ),
        state.queue.is_prefix_of(state.expand(page, links, from).queue),
        state.limits.depth_cap_reached(page.depth) ==> state.expand(page, links, from).queue
            == state.queue,
        state.expand(page, links, from).awaiting == state.awaiting,
        state.expand(page, links, from).limits == state.limits,
    decreases links.len() - from,
{
    if from < 0 || from >= links.len() || state.exhausted() {
    } else {
        let step = state.visit(page, links[from]);
        lemma_bfs_visit(state, page, links[from]);
        lemma_bfs_expand(step, page, links, from + 1);
    }
}

/// Breadth-first: expanding a page keeps every node found before in its
/// place and with its group. A page whose links all lead to known pages
/// therefore adds no node.
pub proof fn law_bfs_page_keeps_nodes(state: BfsView, links: Seq<PageLinkView>)
    requires
        state.well_formed(),
    ensures
        state.page_links(links).well_formed(),
        state.graph.nodes.is_prefix_of(state.page_links(links).graph.nodes),
        forall|url: Seq<char>| #[trigger]
            state.graph.has_node(url) ==> state.page_links(links).graph.has_node(url)
                && state.page_links(links).graph.group_of(url) == state.graph.group_of(url),
{
    match state.awaiting {
        None => {},
        Some(page) => {
            let counted = state.graph.with_frequency(
                page.url,
                state.limits.capped_count(links.len()),
            );
            lemma_count_keeps_entries_unique(
                state.graph,
                page.url,
                state.limits.capped_count(links.len()),
            );
            let begun = BfsView { graph: counted, awaiting: None, ..state };
            lemma_bfs_expand(begun, page, links, 0);
        },
    }
    let after = state.page_links(links).graph;
    assert forall|url: Seq<char>| #[trigger] state.graph.has_node(url) implies after.has_node(url)
        && after.group_of(url) == state.graph.group_of(url) by {
        law_prefix_keeps_groups(state.graph, after, url);
    }
}

/// Breadth-first: a page that has reached the depth cap puts nothing on the
/// queue, so nothing found on it is ever fetched.
pub proof fn law_bfs_deep_page_schedules_nothing(state: BfsView, links: Seq<PageLinkView>)
    requires
        state.well_formed(),
        state.awaiting matches Some(page) && state.limits.depth_cap_reached(page.depth),
    ensures
        state.page_links(links).queue == state.queue,
{
    let page = state.awaiting->0;
    let counted = state.graph.with_frequency(page.url, state.limits.capped_count(links.len()));
    lemma_count_keeps_entries_unique(
        state.graph,
        page.url,
        state.limits.capped_count(links.len()),
    );
    let begun = BfsView { graph: counted, awaiting: None, ..state };
    lemma_bfs_expand(begun, page, links, 0);
}

/// Breadth-first: once the node cap is reached no URL is handed out and a
/// page changes neither nodes nor queue; a crawl that began below the cap
/// never holds more nodes than the cap.
pub proof fn law_bfs_node_cap(state: BfsView, links: Seq<PageLinkView>)
    requires
        state.well_formed(),
    ensures
        state.exhausted() ==> state.next() == state && state.next().announced() is None,
        state.next().announced() is Some ==> !state.next().exhausted(),
        state.exhausted() ==> state.page_links(links).graph.nodes == state.graph.nodes
            && state.page_links(links).queue == state.queue,
        state.page_links(links).graph.size() <= size_bound(state.graph.size(), state.limits),
        state.page_links(links).graph.size() <= state.graph.size() + links.len(),
{
    match state.awaiting {
        None => {},
        Some(page) => {
            let counted = state.graph.with_frequency(
                page.url,
                state.limits.capped_count(links.len()),
            );
            lemma_count_keeps_entries_unique(
                state.graph,
                page.url,
                state.limits.capped_count(links.len()),
            );
            let begun = BfsView { graph: counted, awaiting: None, ..state };
            lemma_bfs_expand(begun, page, links, 0);
            lemma_bfs_growth(begun, page, links, 0);
        },
    }
}

/// Breadth-first: each anchor of a page adds one node at most.
proof fn lemma_bfs_growth(state: BfsView, page: ItemView, links: Seq<PageLinkView>, from: int)
    requires
        state.well_formed(),
        page.admissible(state.limits),
        0 <= from <= links.len(),
    ensures
        state.expand(page, links, from).graph.size() <= state.graph.size() + links.len() - from,
    decreases links.len() - from,
{
    if from >= links.len() || state.exhausted() {
    } else {
        lemma_bfs_visit(state, page, links[from]);
        lemma_bfs_growth(state.visit(page, links[from]), page, links, from + 1);
    }
}

/// Breadth-first: a crawl with pages left on its queue ends only when the
/// node cap is reached.
pub proof fn law_bfs_ends_at_cap(state: BfsView)
    requires
        state.awaiting is None,
        state.queue.len() > 0,
        state.next().announced() is None,
    ensures
        state.graph.size() >= state.limits.max_nodes,
{
}

/// What running the stack does to a depth-first crawl.
proof fn lemma_dfs_run(state: DfsView)
    requires
        state.well_formed(),
    ensures
        state.run().state.well_formed(),
        state.graph.nodes.is_prefix_of(state.run().state.graph.nodes),
        state.run().state.graph.size() <= size_bound(state.graph.size(), state.limits),
        state.run().state.graph.size() <= state.graph.size() + state.stack.len(),
        state.run().state.limits == state.limits,
        state.run().answer is Ok && state.run().answer->Ok_0 is Some
            ==> !state.run().state.exhausted(),
        state.exhausted() ==> state.run().state == state && state.run().answer == Ok::<
            Option<Seq<char>>,
            crate::error::CrawlErrorView,
        >(None),
        (forall|i: int|
            0 <= i < state.stack.len() ==> state.limits.depth_cap_reached(
                (#[trigger] state.stack[i]).page.depth,
            )) ==> !(state.run().answer is Ok && state.run().answer->Ok_0 is Some),
    decreases state.stack.len(),
{
    if state.exhausted() || state.stack.len() == 0 {
    } else {
        let work = state.stack.last();
        let rest = DfsView { stack: state.stack.drop_last(), ..state };
        assert(rest.well_formed());
        match work.link {
            PageLinkView::Missing => {
                lemma_dfs_run(rest);
            },
            PageLinkView::Unresolved { raw } => {},
            PageLinkView::Resolved { raw, target } => {
                law_visit_keeps_nodes(
                    state.graph,
                    work.page,
                    raw,
                    target,
                    state.limits,
                    state.grouping,
                );
                law_visit_keeps_entries_unique(
                    state.graph,
                    work.page,
                    raw,
                    target,
                    state.limits,
                    state.grouping,
                );
                let found = visited(
                    state.graph,
                    work.page,
                    raw,
                    target,
                    state.limits,
                    state.grouping,
                );
                let grown = DfsView { graph: found.graph, ..rest };
                assert(grown.well_formed());
                match found.outcome {
                    VisitView::Descend(child) => {},
                    _ => {
                        lemma_dfs_run(grown);
                    },
                }
            },
        }
    }
}

/// Depth-first: a call of `next` keeps every node found before in its place
/// and with its group.
pub proof fn law_dfs_next_keeps_nodes(state: DfsView)
    requires
        state.well_formed(),
    ensures
        state.next().state.well_formed(),
        state.graph.nodes.is_prefix_of(state.next().state.graph.nodes),
        forall|url: Seq<char>| #[trigger]
            state.graph.has_node(url) ==> state.next().state.graph.has_node(url)
                && state.next().state.graph.group_of(url) == state.graph.group_of(url),
{
    lemma_dfs_run(state);
    let after = state.next().state.graph;
    assert forall|url: Seq<char>| #[trigger] state.graph.has_node(url) implies after.has_node(url)
        && after.group_of(url) == state.graph.group_of(url) by {
        law_prefix_keeps_groups(state.graph, after, url);
    }
}

/// Depth-first: while every anchor on the stack stands on a page that has
/// reached the depth cap, no URL is handed out for fetching.
pub proof fn law_dfs_deep_pages_fetch_nothing(state: DfsView)
    requires
        state.well_formed(),
        state.awaiting is None,
        forall|i: int|
            0 <= i < state.stack.len() ==> state.limits.depth_cap_reached(
                (#[trigger] state.stack[i]).page.depth,
            ),
    ensures
        !(state.next().answer is Ok && state.next().answer->Ok_0 is Some),
{
    lemma_dfs_run(state);
}

/// Depth-first: once the node cap is reached no URL is handed out and the
/// crawl stands still; a URL is handed out only below the cap; a crawl that
/// began below the cap never holds more nodes than the cap.
pub proof fn law_dfs_node_cap(state: DfsView)
    requires
        state.well_formed(),
    ensures
        state.exhausted() ==> state.next().state == state && state.next().answer == Ok::<
            Option<Seq<char>>,
            crate::error::CrawlErrorView,
        >(None),
        state.next().answer is Ok && state.next().answer->Ok_0 is Some
            ==> !state.next().state.exhausted(),
        state.next().state.graph.size() <= size_bound(state.graph.size(), state.limits),
        state.next().state.graph.size() <= state.graph.size() + state.stack.len(),
{
    lemma_dfs_run(state);
}

/// Depth-first: running the stack ends the crawl only at the node cap or
/// with an empty stack.
proof fn lemma_dfs_run_ends(state: DfsView)
    requires
        state.awaiting is None,
    ensures
        state.run().answer == Ok::<Option<Seq<char>>, crate::error::CrawlErrorView>(None)
            ==> state.run().state.exhausted() || (state.run().state.stack.len() == 0
            && state.run().state.awaiting is None),
    decreases state.stack.len(),
{
    if state.exhausted() || state.stack.len() == 0 {
    } else {
        let work = state.stack.last();
        let rest = DfsView { stack: state.stack.drop_last(), ..state };
        match work.link {
            PageLinkView::Missing => {
                lemma_dfs_run_ends(rest);
            },
            PageLinkView::Unresolved { raw } => {},
            PageLinkView::Resolved { raw, target } => {
                let found = visited(
                    state.graph,
                    work.page,
                    raw,
                    target,
                    state.limits,
                    state.grouping,
                );
                let grown = DfsView { graph: found.graph, ..rest };
                match found.outcome {
                    VisitView::Descend(child) => {},
                    _ => {
                        lemma_dfs_run_ends(grown);
                    },
                }
            },
        }
    }
}

/// Depth-first: a crawl that is over without an error has reached the node
/// cap, unless it has run out of anchors to visit.
pub proof fn law_dfs_ends_at_cap(state: DfsView)
    requires
        state.well_formed(),
        state.next().answer == Ok::<Option<Seq<char>>, crate::error::CrawlErrorView>(None),
        state.next().state.stack.len() > 0 || state.next().state.awaiting is Some,
    ensures
        state.next().state.graph.size() >= state.limits.max_nodes,
{
    if !state.exhausted() && state.awaiting is None {
        lemma_dfs_run_ends(state);
        lemma_dfs_run(state);
    }
}

/// Breadth-first: the anchors of a page put only pages within the depth cap
/// on the queue.
proof fn lemma_bfs_expand_depth(
    state: BfsView,
    page: ItemView,
    links: Seq<PageLinkView>,
    from: int,
)
    requires
        state.within_depth(),
    ensures
        state.expand(page, links, from).within_depth(),
    decreases links.len() - from,
{
    if from < 0 || from >= links.len() || state.exhausted() {
    } else {
        let step = state.visit(page, links[from]);
        assert(step.within_depth());
        lemma_bfs_expand_depth(step, page, links, from + 1);
    }
}

/// Depth-first: running the stack awaits only a page within the depth cap.
proof fn lemma_dfs_run_depth(state: DfsView)
    requires
        state.within_depth(),
    ensures
        state.run().state.within_depth(),
    decreases state.stack.len(),
{
    if state.exhausted() || state.stack.len() == 0 {
    } else {
        let work = state.stack.last();
        let rest = DfsView { stack: state.stack.drop_last(), ..state };
        assert(rest.within_depth());
        match work.link {
            PageLinkView::Missing => {
                lemma_dfs_run_depth(rest);
            },
            PageLinkView::Unresolved { raw } => {},
            PageLinkView::Resolved { raw, target } => {
                let found = visited(
                    state.graph,
                    work.page,
                    raw,
                    target,
                    state.limits,
                    state.grouping,
                );
                let grown = DfsView { graph: found.graph, ..rest };
                assert(grown.within_depth());
                match found.outcome {
                    VisitView::Descend(child) => {},
                    _ => {
                        lemma_dfs_run_depth(grown);
                    },
                }
            },
        }
    }
}

/// What one event does to a crawl.
proof fn lemma_crawl_step(state: WalkerView, event: CrawlEvent)
    requires
        state.well_formed(),
    ensures
        state.step(event).well_formed(),
        state.step(event).limits() == state.limits(),
        state.graph().nodes.is_prefix_of(state.step(event).graph().nodes),
        state.step(event).graph().size() <= size_bound(state.graph().size(), state.limits()),
        state.within_depth() ==> state.step(event).within_depth(),
{
    match state {
        WalkerView::BreadthFirst(inner) => {
            match event {
                CrawlEvent::Next => {
                    if !(inner.exhausted() || inner.awaiting is Some || inner.queue.len() == 0) {
                        assert(inner.queue[0].admissible(inner.limits));
                        if inner.within_depth() {
                            assert(inner.queue[0].depth <= inner.limits.max_depth);
                        }
                    }
                },
                CrawlEvent::PageLinks(links) => {
                    law_bfs_page_keeps_nodes(inner, links);
                    law_bfs_node_cap(inner, links);
                    match inner.awaiting {
                        None => {},
                        Some(page) => {
                            let begun = BfsView {
                                graph: inner.graph.with_frequency(
                                    page.url,
                                    inner.limits.capped_count(links.len()),
                                ),
                                awaiting: None,
                                ..inner
                            };
                            lemma_count_keeps_entries_unique(
                                inner.graph,
                                page.url,
                                inner.limits.capped_count(links.len()),
                            );
                            lemma_bfs_expand(begun, page, links, 0);
                            if inner.within_depth() {
                                lemma_bfs_expand_depth(begun, page, links, 0);
                            }
                        },
                    }
                },
                CrawlEvent::PageFailed => {},
            }
        },
        WalkerView::DepthFirst(inner) => {
            match event {
                CrawlEvent::Next => {
                    lemma_dfs_run(inner);
                    if inner.within_depth() {
                        lemma_dfs_run_depth(inner);
                    }
                },
                CrawlEvent::PageLinks(links) => {
                    match inner.awaiting {
                        None => {},
                        Some(page) => {
                            let pile = inner.stack + stacked(page, links);
                            assert forall|i: int| 0 <= i < pile.len() implies {
                                &&& (#[trigger] pile[i]).page.admissible(inner.limits)
                                &&& inner.within_depth() ==> pile[i].page.depth
                                    <= inner.limits.max_depth
                            } by {
                                if i < inner.stack.len() {
                                    assert(pile[i] == inner.stack[i]);
                                } else {
                                    assert(pile[i].page == page);
                                }
                            }
                        },
                    }
                },
                CrawlEvent::PageFailed => {},
            }
        },
    }
}

/// Whatever happens to a crawl, by either strategy: the store never holds an
/// entry twice; every node keeps its place and its group from its first
/// discovery on; a crawl that began below the node cap never holds more
/// nodes than the cap; and once the cap is reached no URL is handed out for
/// fetching any more.
pub proof fn law_crawl_end_to_end(state: WalkerView, events: Seq<CrawlEvent>)
    requires
        state.well_formed(),
    ensures
        state.after(events).well_formed(),
        state.after(events).limits() == state.limits(),
        state.graph().nodes.is_prefix_of(state.after(events).graph().nodes),
        forall|url: Seq<char>| #[trigger]
            state.graph().has_node(url) ==> state.after(events).graph().has_node(url)
                && state.after(events).graph().group_of(url) == state.graph().group_of(url),
        state.after(events).graph().size() <= size_bound(state.graph().size(), state.limits()),
        state.exhausted() ==> state.after(events).exhausted() && state.after(events).next().answer
            == Ok::<Option<Seq<char>>, crate::error::CrawlErrorView>(None),
    decreases events.len(),
{
    if events.len() > 0 {
        let before = state.after(events.drop_last());
        law_crawl_end_to_end(state, events.drop_last());
        lemma_crawl_step(before, events.last());
    }
    let end = state.after(events);
    let first = state.graph();
    let last = end.graph();
    assert forall|url: Seq<char>| #[trigger] first.has_node(url) implies last.has_node(url)
        && last.group_of(url) == first.group_of(url) by {
        law_prefix_keeps_groups(first, last, url);
    }
    if state.exhausted() {
        match end {
            WalkerView::BreadthFirst(inner) => {},
            WalkerView::DepthFirst(inner) => {},
        }
    }
}

/// Whatever happens to a crawl that starts with no page below the depth
/// cap: no page below the cap is ever handed out for fetching. What is found
/// on a page at the cap is recorded and never expanded.
pub proof fn law_crawl_stays_within_depth(state: WalkerView, events: Seq<CrawlEvent>)
    requires
        state.well_formed(),
        state.within_depth(),
    ensures
        state.after(events).within_depth(),
        state.after(events).awaiting() matches Some(page) ==> page.depth
            <= state.limits().max_depth,
    decreases events.len(),
{
    if events.len() > 0 {
        let before = state.after(events.drop_last());
        law_crawl_end_to_end(state, events.drop_last());
        law_crawl_stays_within_depth(state, events.drop_last());
        lemma_crawl_step(before, events.last());
    }
    law_crawl_end_to_end(state, events);
    match state.after(events) {
        WalkerView::BreadthFirst(inner) => {},
        WalkerView::DepthFirst(inner) => {},
    }
}

} // verus!
