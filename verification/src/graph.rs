//! The graph store: the pages discovered so far, the links between them, the
//! hosts they live on and the per-page anchor counts.
//!
//! Every collection keeps its entries in discovery order and holds no entry
//! twice. Membership is answered from hash indexes kept beside the ordered
//! lists.

use vstd::hash_map::StringHashMap;
use vstd::hash_set::StringHashSet;
use vstd::prelude::*;

verus! {

/// A discovered page: its absolute URL and the group it was given when it was
/// first seen.
#[derive(Debug, Clone)]
pub struct Node {
    pub url: String,
    pub group: i32,
}

/// A directed edge between two pages.
#[derive(Debug, Clone)]
pub struct Link {
    pub source: String,
    pub target: String,
}

/// The number of anchors counted on one visited page.
#[derive(Debug, Clone)]
pub struct Frequency {
    pub url: String,
    pub count: usize,
}

pub struct NodeView {
    pub url: Seq<char>,
    pub group: int,
}

pub struct LinkView {
    pub source: Seq<char>,
    pub target: Seq<char>,
}

pub struct FrequencyView {
    pub url: Seq<char>,
    pub count: int,
}

impl View for Node {
    type V = NodeView;

    open spec fn view(&self) -> NodeView {
        NodeView { url: self.url@, group: self.group as int }
    }
}

impl View for Link {
    type V = LinkView;

    open spec fn view(&self) -> LinkView {
        LinkView { source: self.source@, target: self.target@ }
    }
}

impl View for Frequency {
    type V = FrequencyView;

    open spec fn view(&self) -> FrequencyView {
        FrequencyView { url: self.url@, count: self.count as int }
    }
}

/// Two nodes are the same node where they have the same URL, whatever their
/// groups.
impl PartialEq for Node {
    fn eq(&self, other: &Self) -> (same: bool) {
        self.url == other.url
    }
}

impl Eq for Node {

}

impl vstd::std_specs::cmp::PartialEqSpecImpl for Node {
    open spec fn obeys_eq_spec() -> bool {
        true
    }

    open spec fn eq_spec(&self, other: &Self) -> bool {
        self.url@ == other.url@
    }
}

/// Two links are the same link where they lead from the same page to the
/// same page.
impl PartialEq for Link {
    fn eq(&self, other: &Self) -> (same: bool) {
        self.source == other.source && self.target == other.target
    }
}

impl Eq for Link {

}

impl vstd::std_specs::cmp::PartialEqSpecImpl for Link {
    open spec fn obeys_eq_spec() -> bool {
        true
    }

    open spec fn eq_spec(&self, other: &Self) -> bool {
        self.source@ == other.source@ && self.target@ == other.target@
    }
}

/// The mathematical content of a graph store: four sequences in discovery
/// order.
pub struct GraphView {
    pub nodes: Seq<NodeView>,
    pub links: Seq<LinkView>,
    pub hosts: Seq<Seq<char>>,
    pub frequencies: Seq<FrequencyView>,
}

impl GraphView {
    pub open spec fn empty() -> GraphView {
        GraphView {
            nodes: Seq::empty(),
            links: Seq::empty(),
            hosts: Seq::empty(),
            frequencies: Seq::empty(),
        }
    }

    /// The position of the node with this URL, if there is one.
    pub open spec fn node_at(self, url: Seq<char>, i: int) -> bool {
        0 <= i < self.nodes.len() && self.nodes[i].url == url
    }

    pub open spec fn has_node(self, url: Seq<char>) -> bool {
        exists|i: int| self.node_at(url, i)
    }

    /// The group recorded for a URL; meaningful where `has_node` holds.
    pub open spec fn group_of(self, url: Seq<char>) -> int {
        self.nodes[choose|i: int| self.node_at(url, i)].group
    }

    pub open spec fn has_link(self, source: Seq<char>, target: Seq<char>) -> bool {
        self.links.contains(LinkView { source, target })
    }

    pub open spec fn has_host(self, host: Seq<char>) -> bool {
        self.hosts.contains(host)
    }

    pub open spec fn frequency_at(self, url: Seq<char>, i: int) -> bool {
        0 <= i < self.frequencies.len() && self.frequencies[i].url == url
    }

    pub open spec fn has_frequency(self, url: Seq<char>) -> bool {
        exists|i: int| self.frequency_at(url, i)
    }

    /// The count recorded for a URL; meaningful where `has_frequency` holds.
    pub open spec fn frequency_of(self, url: Seq<char>) -> int {
        self.frequencies[choose|i: int| self.frequency_at(url, i)].count
    }

    /// The number of nodes.
    pub open spec fn size(self) -> nat {
        self.nodes.len()
    }

    /// Adds a node unless its URL is already known; a known node keeps the
    /// group of its first discovery.
    pub open spec fn with_node(self, url: Seq<char>, group: int) -> GraphView {
        if self.has_node(url) {
            self
        } else {
            GraphView { nodes: self.nodes.push(NodeView { url, group }), ..self }
        }
    }

    /// Adds a link unless the same ordered pair is already there.
    pub open spec fn with_link(self, source: Seq<char>, target: Seq<char>) -> GraphView {
        if self.has_link(source, target) {
            self
        } else {
            GraphView { links: self.links.push(LinkView { source, target }), ..self }
        }
    }

    /// Adds a host name unless it is already there.
    pub open spec fn with_host(self, host: Seq<char>) -> GraphView {
        if self.has_host(host) {
            self
        } else {
            GraphView { hosts: self.hosts.push(host), ..self }
        }
    }

    /// Sets the count of a page, overwriting an earlier entry in place.
    pub open spec fn with_frequency(self, url: Seq<char>, count: int) -> GraphView {
        let entry = FrequencyView { url, count };
        if self.has_frequency(url) {
            GraphView {
                frequencies: self.frequencies.update(
                    choose|i: int| self.frequency_at(url, i),
                    entry,
                ),
                ..self
            }
        } else {
            GraphView { frequencies: self.frequencies.push(entry), ..self }
        }
    }

    /// No URL names two nodes, no ordered pair two links, no name two hosts
    /// and no URL two frequency entries.
    pub open spec fn well_formed(self) -> bool {
        &&& forall|i: int, j: int|
            0 <= i < j < self.nodes.len() ==> (#[trigger] self.nodes[i]).url != (
            #[trigger] self.nodes[j]).url
        &&& forall|i: int, j: int|
            0 <= i < j < self.links.len() ==> #[trigger] self.links[i] != #[trigger] self.links[j]
        &&& forall|i: int, j: int|
            0 <= i < j < self.hosts.len() ==> #[trigger] self.hosts[i] != #[trigger] self.hosts[j]
        &&& forall|i: int, j: int|
            0 <= i < j < self.frequencies.len() ==> (#[trigger] self.frequencies[i]).url != (
            #[trigger] self.frequencies[j]).url
    }
}

/// The graph store.
pub struct Db {
    nodes: Vec<Node>,
    node_slots: StringHashMap<usize>,
    links: Vec<Link>,
    source_slots: StringHashMap<usize>,
    targets_by_source: Vec<StringHashSet>,
    host_names: Vec<String>,
    host_set: StringHashSet,
    freq_table: Vec<Frequency>,
    freq_slots: StringHashMap<usize>,
}

impl View for Db {
    type V = GraphView;

    closed spec fn view(&self) -> GraphView {
        GraphView {
            nodes: self.nodes@.map_values(|n: Node| n@),
            links: self.links@.map_values(|l: Link| l@),
            hosts: self.host_names@.map_values(|h: String| h@),
            frequencies: self.freq_table@.map_values(|f: Frequency| f@),
        }
    }
}

impl Db {
    /// Whether the link index holds the pair.
    spec fn indexed(&self, source: Seq<char>, target: Seq<char>) -> bool {
        &&& self.source_slots@.contains_key(source)
        &&& self.source_slots@[source] < self.targets_by_source.len()
        &&& self.targets_by_source[self.source_slots@[source] as int]@.contains(target)
    }

    spec fn nodes_indexed(&self) -> bool {
        &&& forall|i: int|
            0 <= i < self.nodes.len() ==> self.node_slots@.contains_key(
                (#[trigger] self.nodes[i]).url@,
            ) && self.node_slots@[self.nodes[i].url@] == i
        &&& forall|u: Seq<char>| #[trigger]
            self.node_slots@.contains_key(u) ==> self.node_slots@[u] < self.nodes.len()
                && self.nodes[self.node_slots@[u] as int].url@ == u
    }

    spec fn links_indexed(&self) -> bool {
        &&& forall|k: int|
            0 <= k < self.links.len() ==> self.indexed(
                (#[trigger] self.links[k]).source@,
                self.links[k].target@,
            )
        &&& forall|s: Seq<char>, t: Seq<char>| #[trigger]
            self.indexed(s, t) ==> self@.has_link(s, t)
        &&& forall|s: Seq<char>| #[trigger]
            self.source_slots@.contains_key(s) ==> self.source_slots@[s]
                < self.targets_by_source.len()
        &&& forall|s1: Seq<char>, s2: Seq<char>|
            #![trigger self.source_slots@[s1], self.source_slots@[s2]]
            self.source_slots@.contains_key(s1) && self.source_slots@.contains_key(s2)
                && self.source_slots@[s1] == self.source_slots@[s2] ==> s1 == s2
    }

    spec fn hosts_indexed(&self) -> bool {
        &&& forall|i: int|
            0 <= i < self.host_names.len() ==> self.host_set@.contains(
                (#[trigger] self.host_names[i])@,
            )
        &&& forall|h: Seq<char>| #[trigger] self.host_set@.contains(h) ==> self@.has_host(h)
        &&& forall|i: int, j: int|
            0 <= i < j < self.host_names.len() ==> (#[trigger] self.host_names[i])@ != (
            #[trigger] self.host_names[j])@
    }

    spec fn frequencies_indexed(&self) -> bool {
        &&& forall|i: int|
            0 <= i < self.freq_table.len() ==> self.freq_slots@.contains_key(
                (#[trigger] self.freq_table[i]).url@,
            ) && self.freq_slots@[self.freq_table[i].url@] == i
        &&& forall|u: Seq<char>| #[trigger]
            self.freq_slots@.contains_key(u) ==> self.freq_slots@[u] < self.freq_table.len()
                && self.freq_table[self.freq_slots@[u] as int].url@ == u
    }

    /// The hash indexes agree with the ordered lists.
    pub closed spec fn inv(&self) -> bool {
        &&& self.nodes_indexed()
        &&& self.links_indexed()
        &&& self.hosts_indexed()
        &&& self.frequencies_indexed()
    }

    /// The store is consistent and holds no entry twice.
    pub open spec fn wf(&self) -> bool {
        self.inv() && self@.well_formed()
    }

    /// The link index stays consistent while the links and their index are
    /// left as they are.
    proof fn lemma_links_untouched(&self, before: &Db)
        requires
            before.links_indexed(),
            self.links == before.links,
            self.source_slots == before.source_slots,
            self.targets_by_source == before.targets_by_source,
        ensures
            self.links_indexed(),
            self@.links == before@.links,
    {
        assert forall|s: Seq<char>, t: Seq<char>| #[trigger]
            self.indexed(s, t) implies self@.has_link(s, t) by {
            assert(before.indexed(s, t));
        }
        assert forall|k: int| 0 <= k < self.links.len() implies self.indexed(
            (#[trigger] self.links[k]).source@,
            self.links[k].target@,
        ) by {
            assert(before.indexed(before.links[k].source@, before.links[k].target@));
        }
    }

    /// An empty store.
    pub fn new() -> (db: Db)
        ensures
            db.wf(),
            db@ == GraphView::empty(),
    {
        let db = Db {
            nodes: Vec::new(),
            node_slots: StringHashMap::new(),
            links: Vec::new(),
            source_slots: StringHashMap::new(),
            targets_by_source: Vec::new(),
            host_names: Vec::new(),
            host_set: StringHashSet::new(),
            freq_table: Vec::new(),
            freq_slots: StringHashMap::new(),
        };
        assert(db@.nodes =~= Seq::empty());
        assert(db@.links =~= Seq::empty());
        assert(db@.hosts =~= Seq::empty());
        assert(db@.frequencies =~= Seq::empty());
        db
    }

    /// A store that holds the start URL of a crawl as its one node, in group
    /// 0.
    pub fn seeded(url: String) -> (db: Db)
        ensures
            db.wf(),
            db@ == GraphView::empty().with_node(url@, 0),
    {
        let mut db = Db::new();
        db.insert_node(Node { url, group: 0 });
        db
    }

    /// The number of nodes.
    pub fn size(&self) -> (n: usize)
        ensures
            n == self@.size(),
    {
        self.nodes.len()
    }

    /// Whether a node with this URL has been discovered.
    pub fn contains_node(&self, url: &str) -> (found: bool)
        requires
            self.wf(),
        ensures
            found == self@.has_node(url@),
    {
        let found = self.node_slots.contains_key(url);
        proof {
            if found {
                assert(self@.node_at(url@, self.node_slots@[url@] as int));
            }
            if self@.has_node(url@) {
                let i = choose|i: int| self@.node_at(url@, i);
                assert(self.nodes[i].url@ == url@);
            }
        }
        found
    }

    /// The group recorded for a URL, if a node with this URL has been
    /// discovered.
    pub fn group_of(&self, url: &str) -> (group: Option<i32>)
        requires
            self.wf(),
        ensures
            group is Some <==> self@.has_node(url@),
            group is Some ==> group->0 == self@.group_of(url@),
    {
        match self.node_slots.get(url) {
            Some(slot) => {
                proof {
                    let k = *slot as int;
                    assert(self@.node_at(url@, k));
                    let c = choose|i: int| self@.node_at(url@, i);
                    assert(self@.node_at(url@, c));
                    assert(self.nodes[c].url@ == url@);
                }
                Some(self.nodes[*slot].group)
            },
            None => {
                proof {
                    if self@.has_node(url@) {
                        let i = choose|i: int| self@.node_at(url@, i);
                        assert(self.nodes[i].url@ == url@);
                    }
                }
                None
            },
        }
    }

    /// Whether the link from `source` to `target` has been recorded.
    pub fn contains_link(&self, source: &str, target: &str) -> (found: bool)
        requires
            self.wf(),
        ensures
            found == self@.has_link(source@, target@),
    {
        let found = match self.source_slots.get(source) {
            Some(slot) => self.targets_by_source[*slot].contains(target),
            None => false,
        };
        proof {
            if found {
                assert(self.indexed(source@, target@));
            }
            if self@.has_link(source@, target@) {
                let pair = LinkView { source: source@, target: target@ };
                let k = choose|k: int| 0 <= k < self@.links.len() && self@.links[k] == pair;
                assert(self.links[k]@ == pair);
                assert(self.indexed(self.links[k].source@, self.links[k].target@));
            }
        }
        found
    }

    /// Whether a host name has been recorded.
    pub fn contains_host(&self, host: &str) -> (found: bool)
        requires
            self.wf(),
        ensures
            found == self@.has_host(host@),
    {
        let found = self.host_set.contains(host);
        proof {
            if self@.has_host(host@) {
                let i = choose|i: int| 0 <= i < self@.hosts.len() && self@.hosts[i] == host@;
                assert(self.host_names[i]@ == host@);
            }
        }
        found
    }

    /// The anchor count recorded for a page, if there is one.
    pub fn frequency_of(&self, url: &str) -> (count: Option<usize>)
        requires
            self.wf(),
        ensures
            count is Some <==> self@.has_frequency(url@),
            count is Some ==> count->0 == self@.frequency_of(url@),
    {
        match self.freq_slots.get(url) {
            Some(slot) => {
                proof {
                    let k = *slot as int;
                    assert(self@.frequency_at(url@, k));
                    let c = choose|i: int| self@.frequency_at(url@, i);
                    assert(self@.frequency_at(url@, c));
                    assert(self.freq_table[c].url@ == url@);
                }
                Some(self.freq_table[*slot].count)
            },
            None => {
                proof {
                    if self@.has_frequency(url@) {
                        let i = choose|i: int| self@.frequency_at(url@, i);
                        assert(self.freq_table[i].url@ == url@);
                    }
                }
                None
            },
        }
    }

    /// Adds a node. Does nothing where a node with the same URL is already
    /// there: the earlier node keeps its group.
    pub fn insert_node(&mut self, node: Node)
        requires
            old(self).wf(),
        ensures
            final(self).wf(),
            final(self)@ == old(self)@.with_node(node.url@, node.group as int),
    {
        let known = self.contains_node(node.url.as_str());
        if !known {
            let slot = self.nodes.len();
            self.node_slots.insert(node.url.clone(), slot);
            self.nodes.push(node);
            proof {
                assert(self@.nodes =~= old(self)@.nodes.push(node@));
                assert forall|i: int| 0 <= i < old(self).nodes.len() implies (
                #[trigger] self.nodes[i]).url@ != node.url@ by {
                    assert(old(self)@.node_at(old(self).nodes[i].url@, i));
                }
                assert(self.nodes_indexed());
                self.lemma_links_untouched(old(self));
                assert(self@.well_formed());
            }
        }
    }

    /// Adds a link. Does nothing where the same ordered pair is already
    /// there.
    pub fn insert_link(&mut self, link: Link)
        requires
            old(self).wf(),
        ensures
            final(self).wf(),
            final(self)@ == old(self)@.with_link(link.source@, link.target@),
    {
        let known = self.contains_link(link.source.as_str(), link.target.as_str());
        if !known {
            let slot = match self.source_slots.get(link.source.as_str()) {
                Some(slot) => *slot,
                None => {
                    let slot = self.targets_by_source.len();
                    self.targets_by_source.push(StringHashSet::new());
                    self.source_slots.insert(link.source.clone(), slot);
                    slot
                },
            };
            self.targets_by_source[slot].insert(link.target.clone());
            self.links.push(link);
            proof {
                assert(self@.links =~= old(self)@.links.push(link@));
                assert forall|s: Seq<char>, t: Seq<char>| #[trigger]
                    old(self).indexed(s, t) implies self.indexed(s, t) by {}
                assert forall|s: Seq<char>, t: Seq<char>| #[trigger]
                    self.indexed(s, t) implies self@.has_link(s, t) by {
                    if s == link.source@ && t == link.target@ {
                        assert(self@.links[old(self).links.len() as int] == link@);
                    } else {
                        assert(old(self).indexed(s, t));
                        let pair = LinkView { source: s, target: t };
                        let k = choose|k: int|
                            0 <= k < old(self)@.links.len() && old(self)@.links[k] == pair;
                        assert(self@.links[k] == pair);
                    }
                }
                assert forall|k: int| 0 <= k < self.links.len() implies self.indexed(
                    (#[trigger] self.links[k]).source@,
                    self.links[k].target@,
                ) by {
                    if k < old(self).links.len() {
                        assert(old(self).indexed(
                            old(self).links[k].source@,
                            old(self).links[k].target@,
                        ));
                    }
                }
                assert(self.links_indexed());
                assert forall|i: int| 0 <= i < old(self).links.len() implies (
                #[trigger] self@.links[i]) != link@ by {
                    assert(old(self)@.links[i] == self@.links[i]);
                }
                assert(self@.well_formed());
            }
        }
    }

    /// Adds a host name. Does nothing where it is already there.
    pub fn record_host(&mut self, host: String)
        requires
            old(self).wf(),
        ensures
            final(self).wf(),
            final(self)@ == old(self)@.with_host(host@),
    {
        let known = self.contains_host(host.as_str());
        if !known {
            self.host_set.insert(host.clone());
            self.host_names.push(host);
            proof {
                assert(self@.hosts =~= old(self)@.hosts.push(host@));
                assert forall|h: Seq<char>| #[trigger]
                    self.host_set@.contains(h) implies self@.has_host(h) by {
                    if h == host@ {
                        assert(self@.hosts[old(self).host_names.len() as int] == h);
                    } else {
                        assert(old(self)@.has_host(h));
                        let i = choose|i: int|
                            0 <= i < old(self)@.hosts.len() && old(self)@.hosts[i] == h;
                        assert(self@.hosts[i] == h);
                    }
                }
                assert forall|i: int| 0 <= i < old(self).host_names.len() implies (
                #[trigger] self.host_names[i])@ != host@ by {
                    assert(old(self).host_set@.contains(old(self).host_names[i]@));
                }
                assert(self.hosts_indexed());
                self.lemma_links_untouched(old(self));
                assert(self@.well_formed());
            }
        }
    }

    /// Sets the anchor count of a page, overwriting an earlier count.
    pub fn record_frequency(&mut self, url: String, count: usize)
        requires
            old(self).wf(),
        ensures
            final(self).wf(),
            final(self)@ == old(self)@.with_frequency(url@, count as int),
    {
        let entry = Frequency { url: url.clone(), count };
        match self.freq_slots.get(url.as_str()) {
            Some(slot) => {
                let slot = *slot;
                proof {
                    let c = choose|i: int| self@.frequency_at(url@, i);
                    assert(self@.frequency_at(url@, slot as int));
                    assert(self@.frequency_at(url@, c));
                    assert(self.freq_table[c].url@ == url@);
                    assert(c == slot);
                }
                self.freq_table.set(slot, entry);
                proof {
                    assert(self@.frequencies =~= old(self)@.frequencies.update(
                        slot as int,
                        entry@,
                    ));
                    assert forall|i: int| 0 <= i < self.freq_table.len() implies (
                    #[trigger] self.freq_table[i]).url@ == old(self).freq_table[i].url@ by {}
                    assert(self.frequencies_indexed());
                    self.lemma_links_untouched(old(self));
                    assert(self@.well_formed());
                }
            },
            None => {
                proof {
                    if self@.has_frequency(url@) {
                        let i = choose|i: int| self@.frequency_at(url@, i);
                        assert(self.freq_table[i].url@ == url@);
                    }
                }
                let slot = self.freq_table.len();
                self.freq_slots.insert(url, slot);
                self.freq_table.push(entry);
                proof {
                    assert(self@.frequencies =~= old(self)@.frequencies.push(entry@));
                    assert forall|i: int| 0 <= i < old(self).freq_table.len() implies (
                    #[trigger] self.freq_table[i]).url@ != entry.url@ by {}
                    assert(self.frequencies_indexed());
                    self.lemma_links_untouched(old(self));
                    assert(self@.well_formed());
                }
            },
        }
    }

    /// The nodes in the order of their discovery.
    pub fn nodes(&self) -> (list: &Vec<Node>)
        ensures
            list@.len() == self@.nodes.len(),
            forall|i: int| 0 <= i < list@.len() ==> (#[trigger] list@[i])@ == self@.nodes[i],
    {
        &self.nodes
    }

    /// The links in the order of their discovery.
    pub fn links(&self) -> (list: &Vec<Link>)
        ensures
            list@.len() == self@.links.len(),
            forall|i: int| 0 <= i < list@.len() ==> (#[trigger] list@[i])@ == self@.links[i],
    {
        &self.links
    }

    /// The host names in the order of their discovery.
    pub fn host_names(&self) -> (list: &Vec<String>)
        ensures
            list@.len() == self@.hosts.len(),
            forall|i: int| 0 <= i < list@.len() ==> (#[trigger] list@[i])@ == self@.hosts[i],
    {
        &self.host_names
    }

    /// The anchor counts in the order in which their pages were first
    /// visited.
    pub fn frequencies(&self) -> (list: &Vec<Frequency>)
        ensures
            list@.len() == self@.frequencies.len(),
            forall|i: int|
                0 <= i < list@.len() ==> (#[trigger] list@[i])@ == self@.frequencies[i],
    {
        &self.freq_table
    }
}

} // verus!
