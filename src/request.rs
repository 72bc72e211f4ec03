//! Requests to the news API and the URL that each one stands for.

use vstd::prelude::*;
use crate::config::NewsConfig;
use crate::text::int_text;

verus! {

/// The page size of a request that sets none.
pub const DEFAULT_PAGE_SIZE: i32 = 20;

/// How far back, in seconds, a search reaches when it starts without a date:
/// ten days.
pub const SEARCH_WINDOW_SECS: i64 = 864000;

/// Which endpoint of the API a request targets, with the filters that only
/// that endpoint takes.
pub enum Endpoint {
    /// A search over all articles; `from` is the earliest publication time,
    /// in seconds since the Unix epoch (UTC).
    Everything { from: Option<i64> },
    /// The curated top headlines, optionally of one country and one category.
    Headlines { country: Option<String>, category: Option<String> },
}

impl Endpoint {
    fn new_everything(from: Option<i64>) -> (r: Endpoint)
        ensures
            r == (Endpoint::Everything { from }),
    {
        Endpoint::Everything { from }
    }

    fn new_headlines(country: Option<String>, category: Option<String>) -> (r: Endpoint)
        ensures
            r == (Endpoint::Headlines { country, category }),
    {
        Endpoint::Headlines { country, category }
    }
}

/// One request for articles.
pub struct Request {
    pub endpoint: Endpoint,
    pub apikey: String,
    /// Comma-separated source identifiers.
    pub sources: Option<String>,
    /// Free-text query.
    pub q: Option<String>,
    pub page_size: i32,
    pub language: String,
}

/// The date of an instant, written `YYYY-MM-DD`, for a time in seconds since
/// the Unix epoch; `None` where the calendar cannot hold that instant.
pub uninterp spec fn utc_iso_date(secs: int) -> Option<Seq<char>>;

/// Relies on chrono's `DateTime::<Utc>::from_timestamp` (which is `None` out of
/// its range) and on `format("%Y-%m-%d")` of the instant it gives.
#[verifier::external_body]
fn iso_date(secs: i64) -> (r: Option<String>)
    ensures
        r is Some <==> utc_iso_date(secs as int) is Some,
        r matches Some(d) ==> utc_iso_date(secs as int) == Some(d@),
{
    chrono::DateTime::<chrono::Utc>::from_timestamp(secs, 0).map(|d| d.format("%Y-%m-%d").to_string())
}

/// Relies on chrono's `Utc::now` and `DateTime::timestamp`: the current time in
/// seconds since the Unix epoch. Nothing is known of its value.
#[verifier::external_body]
pub(crate) fn now_timestamp() -> (r: i64) {
    chrono::Utc::now().timestamp()
}

/// A query parameter: name and value.
pub type Param = (Seq<char>, Seq<char>);

/// `name=value`.
pub open spec fn param_text(p: Param) -> Seq<char> {
    p.0 + seq!['='] + p.1
}

/// The parameters joined by `&`.
pub open spec fn join_params(ps: Seq<Param>) -> Seq<char>
    decreases ps.len(),
{
    if ps.len() == 0 {
        Seq::empty()
    } else if ps.len() == 1 {
        param_text(ps[0])
    } else {
        join_params(ps.drop_last()) + seq!['&'] + param_text(ps.last())
    }
}

/// One parameter when the value is present, none when it is absent.
pub open spec fn opt_param(name: Seq<char>, v: Option<String>) -> Seq<Param> {
    match v {
        Some(s) => seq![(name, s@)],
        None => Seq::empty(),
    }
}

/// The parameters that only the endpoint takes. A source filter excludes the
/// country filter, which the API does not combine with it.
pub open spec fn endpoint_params(r: Request) -> Seq<Param> {
    match r.endpoint {
        Endpoint::Everything { from } => match from {
            Some(t) => match utc_iso_date(t as int) {
                Some(d) => seq![("from"@, d)],
                None => Seq::empty(),
            },
            None => Seq::empty(),
        },
        Endpoint::Headlines { country, category } => (if r.sources is None {
            opt_param("country"@, country)
        } else {
            Seq::empty()
        }) + opt_param("category"@, category),
    }
}

/// The parameters of a request, in their order in the URL.
pub open spec fn params_of(r: Request) -> Seq<Param> {
    endpoint_params(r) + opt_param("q"@, r.q) + opt_param("sources"@, r.sources) + seq![
        ("language"@, r.language@),
        ("pageSize"@, int_text(r.page_size as int)),
        ("apiKey"@, r.apikey@),
    ]
}

/// The path segment of an endpoint.
pub open spec fn path_of(e: Endpoint) -> Seq<char> {
    match e {
        Endpoint::Everything { .. } => "everything"@,
        Endpoint::Headlines { .. } => "top-headlines"@,
    }
}

/// The URL of a request.
pub open spec fn url_of(r: Request) -> Seq<char> {
    "https://newsapi.org/v2/"@ + path_of(r.endpoint) + "?"@ + join_params(params_of(r))
}

proof fn lemma_join_push(ps: Seq<Param>, p: Param)
    ensures
        join_params(ps.push(p)) == join_params(ps) + (if ps.len() == 0 {
            Seq::<char>::empty()
        } else {
            seq!['&']
        }) + param_text(p),
{
    assert(ps.push(p).drop_last() =~= ps);
    if ps.len() == 0 {
        assert(join_params(ps.push(p)) =~= join_params(ps) + Seq::<char>::empty() + param_text(p));
    }
}

/// Appends `name=value` to a URL whose query so far holds `ps`.
fn push_param(
    out: &mut String,
    Ghost(head): Ghost<Seq<char>>,
    Ghost(ps): Ghost<Seq<Param>>,
    first: bool,
    name: &str,
    value: &str,
)
    requires
        old(out)@ == head + join_params(ps),
        first == (ps.len() == 0),
    ensures
        final(out)@ == head + join_params(ps.push((name@, value@))),
{
    if !first {
        out.append("&");
    }
    out.append(name);
    out.append("=");
    out.append(value);
    proof {
        reveal_strlit("&");
        reveal_strlit("=");
        lemma_join_push(ps, (name@, value@));
        if first {
            assert(final(out)@ =~= head + join_params(ps.push((name@, value@))));
        } else {
            assert(final(out)@ =~= head + join_params(ps.push((name@, value@))));
        }
    }
}

/// Appends a parameter when its value is present.
fn push_opt_param(
    out: &mut String,
    Ghost(head): Ghost<Seq<char>>,
    Ghost(ps): Ghost<Seq<Param>>,
    first: bool,
    name: &str,
    value: &Option<String>,
) -> (now_first: bool)
    requires
        old(out)@ == head + join_params(ps),
        first == (ps.len() == 0),
    ensures
        final(out)@ == head + join_params(ps + opt_param(name@, *value)),
        now_first == ((ps + opt_param(name@, *value)).len() == 0),
{
    match value {
        Some(v) => {
            push_param(out, Ghost(head), Ghost(ps), first, name, v.as_str());
            assert(ps + opt_param(name@, *value) =~= ps.push((name@, v@)));
            false
        },
        None => {
            assert(ps + opt_param(name@, *value) =~= ps);
            first
        },
    }
}

impl Request {
    pub fn new(
        endpoint: Endpoint,
        apikey: String,
        sources: Option<String>,
        q: Option<String>,
        page_size: i32,
        language: String,
    ) -> (r: Request)
        ensures
            r == (Request { endpoint, apikey, sources, q, page_size, language }),
    {
        Request { endpoint, apikey, sources, q, page_size, language }
    }

    /// The default request: top headlines with no filter, no query and the
    /// default page size, with the key and language of `config`.
    pub fn new_empty(config: NewsConfig) -> (r: Request)
        ensures
            r.endpoint == (Endpoint::Headlines { country: None, category: None }),
            r.apikey == config.apikey,
            r.language == config.language,
            r.sources is None,
            r.q is None,
            r.page_size == DEFAULT_PAGE_SIZE,
    {
        Request::new(
            Endpoint::new_headlines(None, None),
            config.apikey,
            None,
            None,
            DEFAULT_PAGE_SIZE,
            config.language,
        )
    }

    /// This request switched to search mode at time `now` (seconds since the
    /// Unix epoch): a search keeps its start, any other request starts a
    /// search window before `now`. The other fields are kept.
    pub fn with_everything_at(self, now: i64) -> (r: Request)
        ensures
            r.endpoint == (match self.endpoint {
                Endpoint::Everything { from } => Endpoint::Everything { from },
                Endpoint::Headlines { .. } => Endpoint::Everything {
                    from: Some(search_start(now as int)),
                },
            }),
            r.apikey == self.apikey,
            r.sources == self.sources,
            r.q == self.q,
            r.page_size == self.page_size,
            r.language == self.language,
    {
        let endpoint = match self.endpoint {
            Endpoint::Everything { from } => Endpoint::new_everything(from),
            Endpoint::Headlines { .. } => {
                let start = if now < i64::MIN + SEARCH_WINDOW_SECS {
                    i64::MIN
                } else {
                    now - SEARCH_WINDOW_SECS
                };
                Endpoint::new_everything(Some(start))
            },
        };
        Request::new(endpoint, self.apikey, self.sources, self.q, self.page_size, self.language)
    }

    /// This request switched to search mode, a new search starting a search
    /// window before the current time. The other fields are kept.
    pub fn with_everything(self) -> (r: Request)
        ensures
            r.endpoint is Everything,
            self.endpoint is Everything ==> r.endpoint == self.endpoint,
            r.apikey == self.apikey,
            r.sources == self.sources,
            r.q == self.q,
            r.page_size == self.page_size,
            r.language == self.language,
    {
        let now = now_timestamp();
        self.with_everything_at(now)
    }

    /// This request switched to top headlines: headlines keep their filters,
    /// a search gets none. The other fields are kept.
    pub fn with_headlines(self) -> (r: Request)
        ensures
            r.endpoint == (match self.endpoint {
                Endpoint::Headlines { country, category } => Endpoint::Headlines {
                    country,
                    category,
                },
                Endpoint::Everything { .. } => Endpoint::Headlines {
                    country: None,
                    category: None,
                },
            }),
            r.apikey == self.apikey,
            r.sources == self.sources,
            r.q == self.q,
            r.page_size == self.page_size,
            r.language == self.language,
    {
        let endpoint = match self.endpoint {
            Endpoint::Headlines { country, category } => Endpoint::new_headlines(country, category),
            Endpoint::Everything { .. } => Endpoint::new_headlines(None, None),
        };
        Request::new(endpoint, self.apikey, self.sources, self.q, self.page_size, self.language)
    }

    /// The URL of this request.
    pub fn build_url(&self) -> (r: String)
        ensures
            r@ == url_of(*self),
    {
        let mut out = String::from_str("https://newsapi.org/v2/");
        match &self.endpoint {
            Endpoint::Everything { .. } => out.append("everything"),
            Endpoint::Headlines { .. } => out.append("top-headlines"),
        }
        out.append("?");
        let ghost head = out@;
        let ghost mut ps: Seq<Param> = Seq::empty();
        let mut first = true;
        assert(out@ == head + join_params(ps));
        match &self.endpoint {
            Endpoint::Everything { from } => {
                if let Some(t) = from {
                    if let Some(d) = iso_date(*t) {
                        push_param(&mut out, Ghost(head), Ghost(ps), first, "from", d.as_str());
                        proof {
                            ps = ps.push(("from"@, d@));
                        }
                        first = false;
                    }
                }
            },
            Endpoint::Headlines { country, category } => {
                if self.sources.is_none() {
                    first = push_opt_param(&mut out, Ghost(head), Ghost(ps), first, "country", country);
                    proof {
                        ps = ps + opt_param("country"@, *country);
                    }
                }
                first = push_opt_param(&mut out, Ghost(head), Ghost(ps), first, "category", category);
                proof {
                    ps = ps + opt_param("category"@, *category);
                }
            },
        }
        assert(ps =~= endpoint_params(*self));
        first = push_opt_param(&mut out, Ghost(head), Ghost(ps), first, "q", &self.q);
        proof {
            ps = ps + opt_param("q"@, self.q);
        }
        first = push_opt_param(&mut out, Ghost(head), Ghost(ps), first, "sources", &self.sources);
        proof {
            ps = ps + opt_param("sources"@, self.sources);
        }
        push_param(&mut out, Ghost(head), Ghost(ps), first, "language", self.language.as_str());
        proof {
            ps = ps.push(("language"@, self.language@));
        }
        let size = crate::text::int_to_text(self.page_size);
        push_param(&mut out, Ghost(head), Ghost(ps), false, "pageSize", size.as_str());
        proof {
            ps = ps.push(("pageSize"@, size@));
        }
        push_param(&mut out, Ghost(head), Ghost(ps), false, "apiKey", self.apikey.as_str());
        proof {
            ps = ps.push(("apiKey"@, self.apikey@));
            assert(ps =~= params_of(*self));
        }
        out
    }
}

/// Where a search window that ends at `now` starts, held at the least
/// representable time.
pub open spec fn search_start(now: int) -> i64 {
    if now - SEARCH_WINDOW_SECS < i64::MIN {
        i64::MIN
    } else {
        (now - SEARCH_WINDOW_SECS) as i64
    }
}


/// A top-headlines request that names sources has no `country` parameter:
/// the source filter and the country filter are never sent together.
pub proof fn lemma_sources_exclude_country(r: Request)
    requires
        r.endpoint is Headlines,
        r.sources is Some,
    ensures
        forall|i: int| 0 <= i < params_of(r).len() ==> (#[trigger] params_of(r)[i]).0 != "country"@,
{
    reveal_strlit("country");
    reveal_strlit("category");
    reveal_strlit("q");
    reveal_strlit("sources");
    reveal_strlit("language");
    reveal_strlit("pageSize");
    reveal_strlit("apiKey");
    let ps = params_of(r);
    assert forall|i: int| 0 <= i < ps.len() implies (#[trigger] ps[i]).0 != "country"@ by {
        assert(ps[i].0 =~= "category"@ || ps[i].0 =~= "q"@ || ps[i].0 =~= "sources"@
            || ps[i].0 =~= "language"@ || ps[i].0 =~= "pageSize"@ || ps[i].0 =~= "apiKey"@);
        assert("country"@.len() == 7);
        assert("sources"@[0] != "country"@[0]);
        assert("sources"@ != "country"@);
    }
}

/// A search request ends with its language, its page size and its API key, in
/// that order; with the default page size that size reads `20`.
pub proof fn lemma_search_params_end(r: Request)
    requires
        r.endpoint is Everything,
    ensures
        params_of(r).len() >= 3,
        params_of(r)[params_of(r).len() - 3] == ("language"@, r.language@),
        params_of(r)[params_of(r).len() - 2] == ("pageSize"@, int_text(r.page_size as int)),
        params_of(r)[params_of(r).len() - 1] == ("apiKey"@, r.apikey@),
        r.page_size == DEFAULT_PAGE_SIZE ==> params_of(r)[params_of(r).len() - 2].1 == "20"@,
{
    reveal_strlit("20");
    reveal_with_fuel(crate::text::digits_of, 2);
    assert(int_text(20) =~= "20"@);
}

/// The URL depends on the request's value alone: equal requests have equal URLs.
pub proof fn lemma_url_deterministic(a: Request, b: Request)
    requires
        a == b,
    ensures
        url_of(a) == url_of(b),
{
}

} // verus!
