//! What a request for a crawl has to say before a crawl can start, and what
//! is answered to it.

use crate::error::{CrawlError, CrawlErrorView};
use crate::policy::Strategy;
use vstd::prelude::*;
use vstd::string::StringExecFns;

verus! {

/// The status of an answer that carries the graph.
pub const STATUS_OK: u16 = 200;

/// The status of the answer to a request that names no URL.
pub const STATUS_BAD_REQUEST: u16 = 400;

/// The status of the answer to a request whose crawl failed.
pub const STATUS_FAILED: u16 = 500;

/// The content type of every answer.
pub const CONTENT_TYPE: &'static str = "text/html";

/// The strategy a request selects: breadth-first where it names none or
/// names `bfs`, depth-first where it names anything else.
pub open spec fn selected_strategy(kind: Option<Seq<char>>) -> Strategy {
    match kind {
        None => Strategy::BreadthFirst,
        Some(name) => if name == "bfs"@ {
            Strategy::BreadthFirst
        } else {
            Strategy::DepthFirst
        },
    }
}

/// The strategy a request selects.
pub fn select_strategy(kind: Option<&str>) -> (strategy: Strategy)
    ensures
        strategy == selected_strategy(kind.deep_view()),
{
    match kind {
        None => Strategy::BreadthFirst,
        Some(name) => {
            let wanted = String::from_str("bfs");
            let given = String::from_str(name);
            if given == wanted {
                Strategy::BreadthFirst
            } else {
                Strategy::DepthFirst
            }
        },
    }
}

/// A request that can be served: where to start and how to walk.
#[derive(Debug, Clone)]
pub struct CrawlRequest {
    pub url: String,
    pub strategy: Strategy,
}

/// Checks the parameters of a request. The URL is required; the strategy is
/// not.
pub fn plan_request(url: Option<&str>, kind: Option<&str>) -> (out: Result<
    CrawlRequest,
    CrawlError,
>)
    ensures
        match out {
            Ok(request) => url matches Some(given) && request.url@ == given@ && request.strategy
                == selected_strategy(kind.deep_view()),
            Err(e) => url is None && e@ == CrawlErrorView::UrlRequired,
        },
{
    match url {
        Some(given) => Ok(
            CrawlRequest { url: String::from_str(given), strategy: select_strategy(kind) },
        ),
        None => Err(CrawlError::UrlRequired),
    }
}

/// An answer to a request: a status and a body.
#[derive(Debug, Clone)]
pub struct Response {
    pub status: u16,
    pub body: String,
}

/// The status that goes with an error: a request without a URL is the
/// caller's fault, anything else a failed crawl.
pub open spec fn status_of(e: CrawlErrorView) -> u16 {
    match e {
        CrawlErrorView::UrlRequired => STATUS_BAD_REQUEST,
        _ => STATUS_FAILED,
    }
}

/// The answer to a request: the serialized graph where there is one, the
/// text of the error where there is none.
pub fn respond(outcome: Result<String, CrawlError>) -> (response: Response)
    ensures
        match outcome {
            Ok(graph) => response.status == STATUS_OK && response.body@ == graph@,
            Err(e) => response.status == status_of(e@) && response.body@ == e@.message(),
        },
{
    match outcome {
        Ok(graph) => Response { status: STATUS_OK, body: graph },
        Err(e) => {
            let status = match &e {
                CrawlError::UrlRequired => STATUS_BAD_REQUEST,
                _ => STATUS_FAILED,
            };
            Response { status, body: e.message() }
        },
    }
}

} // verus!
