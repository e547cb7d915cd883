//! A bounded web-graph crawler: graph store, link classification, limits and
//! the breadth-first and depth-first frontier walkers.

pub mod bfs;
pub mod crawler;
pub mod dfs;
pub mod error;
pub mod extract;
pub mod graph;
pub mod laws;
pub mod policy;
pub mod request;
pub mod resolve;
pub mod visit;
