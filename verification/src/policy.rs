//! The limits that end a crawl and the rule that groups discovered pages.

use crate::graph::Db;
use vstd::prelude::*;
use vstd::string::StrSliceExecFns;

verus! {

/// The depth beyond which pages are recorded but not expanded, unless a
/// crawl is given another.
pub const MAX_DEPTH: i32 = 10;

/// The number of nodes at which a crawl stops, unless it is given another.
pub const MAX_NODES: usize = 1000;

/// The two caps of a crawl.
#[derive(Debug, Clone, Copy)]
pub struct Limits {
    /// A page at this depth or deeper is fetched and its links are recorded,
    /// but nothing is scheduled from it.
    pub max_depth: i32,
    /// Once the store holds this many nodes, nothing more is expanded.
    pub max_nodes: usize,
}

impl Limits {
    /// Depths are counted in 32 bits: the depth cap leaves room for the step
    /// below it.
    pub open spec fn wf(self) -> bool {
        self.max_depth < i32::MAX
    }

    pub open spec fn node_cap_reached(self, size: nat) -> bool {
        size >= self.max_nodes
    }

    pub open spec fn depth_cap_reached(self, depth: int) -> bool {
        depth >= self.max_depth
    }

    /// The count entered in the frequency table for a page with this many
    /// anchors.
    pub open spec fn capped_count(self, anchors: nat) -> int {
        if anchors <= self.max_nodes {
            anchors as int
        } else {
            self.max_nodes as int
        }
    }

    /// The limits a crawl has when none are chosen.
    pub fn standard() -> (limits: Limits)
        ensures
            limits.max_depth == MAX_DEPTH,
            limits.max_nodes == MAX_NODES,
            limits.wf(),
    {
        Limits { max_depth: MAX_DEPTH, max_nodes: MAX_NODES }
    }

    /// Whether a store of this size has reached the node cap.
    pub fn nodes_exhausted(&self, size: usize) -> (reached: bool)
        ensures
            reached == self.node_cap_reached(size as nat),
    {
        size >= self.max_nodes
    }

    /// Whether a page at this depth is too deep to schedule anything from.
    pub fn depth_exhausted(&self, depth: i32) -> (reached: bool)
        ensures
            reached == self.depth_cap_reached(depth as int),
    {
        depth >= self.max_depth
    }

    /// The count entered in the frequency table for a page with this many
    /// anchors.
    pub fn cap_count(&self, anchors: usize) -> (count: usize)
        ensures
            count == self.capped_count(anchors as nat),
    {
        if anchors <= self.max_nodes {
            anchors
        } else {
            self.max_nodes
        }
    }
}

/// The order in which a crawl expands the pages it discovers.
#[derive(Debug, Clone, Copy, PartialEq, Eq)]
pub enum Strategy {
    /// Pages are expanded in the order of their discovery.
    BreadthFirst,
    /// A discovered page is expanded before the rest of the page it was
    /// found on.
    DepthFirst,
}

/// How a discovered link is judged to stay within the group of the page it
/// was found on.
#[derive(Debug, Clone, Copy, PartialEq, Eq)]
pub enum Grouping {
    /// An href that begins with `/` stays in the group; any other starts the
    /// next one.
    RelativeHref,
    /// An href that is itself a recorded host name stays in the group; any
    /// other starts the next one.
    KnownHost,
}

/// Whether an href, as written in the page, begins with `/`.
pub open spec fn is_relative(raw: Seq<char>) -> bool {
    raw.len() > 0 && raw[0] == '/'
}

/// The group of a node discovered through `raw` on a page of group `group`,
/// the recorded hosts being `hosts`.
pub open spec fn classified(
    grouping: Grouping,
    raw: Seq<char>,
    hosts: Seq<Seq<char>>,
    group: int,
) -> int {
    let stays = match grouping {
        Grouping::RelativeHref => is_relative(raw),
        Grouping::KnownHost => hosts.contains(raw),
    };
    if stays {
        group
    } else {
        group + 1
    }
}

/// Whether an href, as written in the page, begins with `/`.
pub fn starts_relative(raw: &str) -> (relative: bool)
    ensures
        relative == is_relative(raw@),
{
    if raw.is_empty() {
        false
    } else {
        raw.get_char(0) == '/'
    }
}

/// The group of a node discovered through `raw` on a page of group `group`.
pub fn classify(grouping: Grouping, raw: &str, db: &Db, group: i32) -> (next: i32)
    requires
        db.wf(),
        group < i32::MAX,
    ensures
        next == classified(grouping, raw@, db@.hosts, group as int),
{
    let stays = match grouping {
        Grouping::RelativeHref => starts_relative(raw),
        Grouping::KnownHost => db.contains_host(raw),
    };
    if stays {
        group
    } else {
        group + 1
    }
}

} // verus!
