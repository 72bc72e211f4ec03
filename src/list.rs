//! The catalog of news sources: the URL that lists it and how it is shown.

use vstd::prelude::*;
use crate::output::{Line, Style, lines_view, push_line};

verus! {

/// One news source.
pub struct Source {
    pub name: String,
    pub id: String,
    pub description: String,
}

/// The sources of one listing, in the order the API gave them.
pub struct Sources {
    pub sources: Vec<Source>,
}

/// The notice shown when a listing holds no source.
pub open spec fn no_sources_notice() -> Seq<char> {
    "No sources could be found for this country"@
}

/// The lines of one source: its name, its description, its identifier and a
/// blank line.
pub open spec fn source_lines(s: Source) -> Seq<(Style, Seq<char>)> {
    seq![
        (Style::Heading, s.name@),
        (Style::Detail, s.description@),
        (Style::Detail, "id: "@ + s.id@),
        (Style::Plain, Seq::empty()),
    ]
}

/// The lines of each source in turn.
pub open spec fn sources_lines(v: Seq<Source>) -> Seq<(Style, Seq<char>)>
    decreases v.len(),
{
    if v.len() == 0 {
        Seq::empty()
    } else {
        sources_lines(v.drop_last()) + source_lines(v.last())
    }
}

/// The lines shown for a listing: the notice alone when it is empty.
pub open spec fn listing_lines(v: Seq<Source>) -> Seq<(Style, Seq<char>)> {
    if v.len() == 0 {
        seq![(Style::Warning, no_sources_notice())]
    } else {
        sources_lines(v)
    }
}

/// The URL that lists the sources, of one country when `country` is given.
pub open spec fn sources_url_of(apikey: Seq<char>, country: Option<Seq<char>>) -> Seq<char> {
    "https://newsapi.org/v2/top-headlines/sources?apiKey="@ + apikey + match country {
        Some(c) => "&country="@ + c,
        None => Seq::empty(),
    }
}

/// The URL that lists the sources, of one country when `country` is given.
pub fn sources_url(apikey: &str, country: Option<&str>) -> (r: String)
    ensures
        r@ == sources_url_of(apikey@, match country {
            Some(c) => Some(c@),
            None => None,
        }),
{
    let mut out = String::from_str("https://newsapi.org/v2/top-headlines/sources?apiKey=");
    out.append(apikey);
    if let Some(c) = country {
        out.append("&country=");
        out.append(c);
    }
    assert(out@ =~= sources_url_of(apikey@, match country {
        Some(c) => Some(c@),
        None => None,
    }));
    out
}

impl Sources {
    /// The lines that show this listing.
    pub fn display(&self) -> (r: Vec<Line>)
        ensures
            lines_view(r@) == listing_lines(self.sources@),
    {
        let mut out: Vec<Line> = Vec::new();
        if self.sources.len() == 0 {
            push_line(&mut out, Style::Warning, String::from_str("No sources could be found for this country"));
            assert(lines_view(out@) =~= listing_lines(self.sources@));
            return out;
        }
        let mut i: usize = 0;
        while i < self.sources.len()
            invariant
                i <= self.sources@.len(),
                lines_view(out@) == sources_lines(self.sources@.take(i as int)),
            decreases self.sources@.len() - i,
        {
            let s = &self.sources[i];
            push_line(&mut out, Style::Heading, s.name.clone());
            push_line(&mut out, Style::Detail, s.description.clone());
            let mut id = String::from_str("id: ");
            id.append(s.id.as_str());
            push_line(&mut out, Style::Detail, id);
            push_line(&mut out, Style::Plain, String::new());
            proof {
                let next = self.sources@.take(i as int + 1);
                assert(next.drop_last() =~= self.sources@.take(i as int));
                assert(next.last() == self.sources@[i as int]);
                assert(lines_view(out@) =~= sources_lines(next));
            }
            i = i + 1;
        }
        assert(self.sources@.take(i as int) =~= self.sources@);
        out
    }
}

} // verus!
