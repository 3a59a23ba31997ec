//! The operation dispatcher's decisions: which HTTP verb and content type
//! a run mode uses, how the query text is carried, which status codes
//! count as failures, and which query parameters the endpoint gets at
//! startup.

use vstd::prelude::*;
use vstd::string::StringExecFns;

verus! {

/// The two run modes: a silent warmup pass, or a measured update run
/// that emits one report record per operation.
pub enum RunMode {
    Warmup,
    Update,
}

/// The HTTP verb of one operation.
pub enum Verb {
    Get,
    Post,
}

/// Everything the transport needs to issue one operation: the verb, the
/// content type, and the query text carried either as a query-string
/// pair or as the request body.
pub struct RequestPlan {
    pub verb: Verb,
    pub content_type: String,
    pub query_pair: Option<(String, String)>,
    pub body: Option<String>,
}

impl RequestPlan {
    /// A plan carries the query text exactly once: as a query-string
    /// pair for a read, as the request body for a write.
    pub open spec fn carries(&self, query: Seq<char>) -> bool {
        match self.verb {
            Verb::Get => {
                &&& self.query_pair matches Some(kv) && kv.0@ == "query"@ && kv.1@ == query
                &&& self.body is None
            },
            Verb::Post => {
                &&& self.query_pair is None
                &&& self.body matches Some(b) && b@ == query
            },
        }
    }
}

/// Maps a run mode to the one operation it issues. A warmup replays the
/// text as a read query: a GET with the query as a query-string pair and
/// the read content type. An update replays it as a write: a POST with
/// the query as the request body and the update content type.
pub fn plan_request(mode: &RunMode, query: String) -> (p: RequestPlan)
    ensures
        p.carries(query@),
        mode is Warmup ==> p.verb is Get && p.content_type@ == "application/sparql-query"@,
        mode is Update ==> p.verb is Post && p.content_type@ == "application/sparql-update"@,
{
    match mode {
        RunMode::Warmup => RequestPlan {
            verb: Verb::Get,
            content_type: String::from_str("application/sparql-query"),
            query_pair: Some((String::from_str("query"), query)),
            body: None,
        },
        RunMode::Update => RequestPlan {
            verb: Verb::Post,
            content_type: String::from_str("application/sparql-update"),
            query_pair: None,
            body: Some(query),
        },
    }
}

/// A response status that fails the operation: any client or server
/// error, that is any code in the 400s or 500s.
pub open spec fn spec_status_is_error(code: u16) -> bool {
    400 <= code < 600
}

/// Decides whether a response status code fails the operation.
pub fn status_is_error(code: u16) -> (r: bool)
    ensures
        r == spec_status_is_error(code),
{
    400 <= code && code < 600
}

/// The query parameters fixed on the endpoint at startup: the one-time
/// access-token injection, when a token is configured, and nothing else.
pub fn endpoint_params(access_token: Option<String>) -> (ps: Vec<(String, String)>)
    ensures
        access_token matches Some(t) ==> ps@.len() == 1 && ps@[0].0@ == "access-token"@
            && ps@[0].1@ == t@,
        access_token is None ==> ps@.len() == 0,
{
    let mut ps: Vec<(String, String)> = Vec::new();
    match access_token {
        Some(t) => {
            ps.push((String::from_str("access-token"), t));
        },
        None => {},
    }
    ps
}

} // verus!
