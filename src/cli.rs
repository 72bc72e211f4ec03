//! What one invocation does, decided from its command-line flags.

use vstd::prelude::*;
use crate::request::{Endpoint, Request, now_timestamp, search_start};
use crate::text::{parse_i32, parse_i32_text};

verus! {

/// The flags of one invocation, as given.
pub struct CliArgs {
    /// The `list sources` subcommand was given.
    pub list_sources: bool,
    /// Its country code.
    pub country: Option<String>,
    pub apikey: Option<String>,
    pub language: Option<String>,
    pub query: Option<String>,
    pub source: Option<String>,
    pub page_size: Option<String>,
}

/// The one action an invocation takes.
pub enum Action {
    /// List the sources, of one country when it is given.
    ListSources { country: Option<String> },
    /// Save the given key and language; no articles are fetched.
    UpdateConfig { apikey: Option<String>, language: Option<String> },
    /// Fetch and show articles.
    FetchArticles,
}

/// Why the flags do not make a request.
#[derive(PartialEq, Eq, Structural, Debug, Clone, Copy)]
pub enum FlagError {
    /// The page size is not a decimal `i32`.
    InvalidPageSize,
}

/// The action that the flags call for: listing sources first, then saving
/// configuration, and fetching articles when neither applies.
pub open spec fn action_of(args: CliArgs) -> Action {
    if args.list_sources {
        Action::ListSources { country: args.country }
    } else if args.apikey is Some || args.language is Some {
        Action::UpdateConfig { apikey: args.apikey, language: args.language }
    } else {
        Action::FetchArticles
    }
}

/// Decides what an invocation does.
pub fn dispatch(args: CliArgs) -> (r: Action)
    ensures
        r == action_of(args),
{
    if args.list_sources {
        Action::ListSources { country: args.country }
    } else if args.apikey.is_some() || args.language.is_some() {
        Action::UpdateConfig { apikey: args.apikey, language: args.language }
    } else {
        Action::FetchArticles
    }
}

/// `new` when given, else `old`.
pub open spec fn given_or<T>(new: Option<T>, old: Option<T>) -> Option<T> {
    if new is Some { new } else { old }
}

/// The endpoint of the request built from `base`: a query or a source switches
/// it to search mode at time `now`.
pub open spec fn flagged_endpoint(base: Endpoint, switched: bool, now: int) -> Endpoint {
    if !switched {
        base
    } else {
        match base {
            Endpoint::Everything { from } => Endpoint::Everything { from },
            Endpoint::Headlines { .. } => Endpoint::Everything { from: Some(search_start(now)) },
        }
    }
}

/// The request that the flags make from `base` at time `now` (seconds since
/// the Unix epoch): a query or a source replaces the request's own and
/// switches it to search mode; a page size replaces the request's own, and
/// fails when it is not a decimal `i32`.
pub fn build_request(
    base: Request,
    query: Option<String>,
    source: Option<String>,
    page_size: Option<String>,
    now: i64,
) -> (r: Result<Request, FlagError>)
    ensures
        r is Err <==> (page_size matches Some(p) && parse_i32_text(p@) is None),
        r matches Ok(req) ==> {
            &&& req.endpoint == flagged_endpoint(
                base.endpoint,
                query is Some || source is Some,
                now as int,
            )
            &&& req.q == given_or(query, base.q)
            &&& req.sources == given_or(source, base.sources)
            &&& req.page_size == match page_size {
                Some(p) => parse_i32_text(p@).unwrap(),
                None => base.page_size,
            }
            &&& req.apikey == base.apikey
            &&& req.language == base.language
        },
{
    let size = match &page_size {
        Some(p) => match parse_i32(p.as_str()) {
            Some(n) => n,
            None => return Err(FlagError::InvalidPageSize),
        },
        None => base.page_size,
    };
    let mut request = base;
    if let Some(q) = query {
        request.q = Some(q);
        request = request.with_everything_at(now);
    }
    if let Some(s) = source {
        request.sources = Some(s);
        request = request.with_everything_at(now);
    }
    request.page_size = size;
    Ok(request)
}


/// The request that the flags make from `base` now: as `build_request` at the
/// current time, whatever that time is.
pub fn request_from_flags(
    base: Request,
    query: Option<String>,
    source: Option<String>,
    page_size: Option<String>,
) -> (r: Result<Request, FlagError>)
    ensures
        r is Err <==> (page_size matches Some(p) && parse_i32_text(p@) is None),
        r matches Ok(req) ==> {
            &&& (query is Some || source is Some) ==> req.endpoint is Everything
            &&& (base.endpoint is Everything || (query is None && source is None))
                ==> req.endpoint == base.endpoint
            &&& req.q == given_or(query, base.q)
            &&& req.sources == given_or(source, base.sources)
            &&& req.page_size == match page_size {
                Some(p) => parse_i32_text(p@).unwrap(),
                None => base.page_size,
            }
            &&& req.apikey == base.apikey
            &&& req.language == base.language
        },
{
    let now = now_timestamp();
    build_request(base, query, source, page_size, now)
}

} // verus!
