//! Articles returned by the API and how they are shown.

use vstd::prelude::*;
use crate::output::{Line, Style, lines_view, push_line};

verus! {

/// One article. Only the title and the link are shown.
pub struct Article {
    pub source_name: String,
    pub title: String,
    pub description: Option<String>,
    pub author: Option<String>,
    pub url: String,
}

/// The articles of one response, in the order the API gave them.
pub struct Response {
    pub articles: Vec<Article>,
}

/// The notice shown when a response holds no article.
pub open spec fn no_articles_notice() -> Seq<char> {
    "Failed to find any articles"@
}

/// The lines of one article: a blank separator, the title, then the link
/// after a marker.
pub open spec fn article_lines(a: Article) -> Seq<(Style, Seq<char>)> {
    seq![(Style::Plain, Seq::empty()), (Style::Title, a.title@), (Style::Link, ">>> "@ + a.url@)]
}

/// The lines of each article in turn.
pub open spec fn articles_lines(arts: Seq<Article>) -> Seq<(Style, Seq<char>)>
    decreases arts.len(),
{
    if arts.len() == 0 {
        Seq::empty()
    } else {
        articles_lines(arts.drop_last()) + article_lines(arts.last())
    }
}

/// The lines shown for a response: the notice alone when it is empty.
pub open spec fn response_lines(arts: Seq<Article>) -> Seq<(Style, Seq<char>)> {
    if arts.len() == 0 {
        seq![(Style::Warning, no_articles_notice())]
    } else {
        articles_lines(arts)
    }
}

impl Response {
    /// The lines that show this response.
    pub fn output(&self) -> (r: Vec<Line>)
        ensures
            lines_view(r@) == response_lines(self.articles@),
    {
        let mut out: Vec<Line> = Vec::new();
        if self.articles.len() == 0 {
            push_line(&mut out, Style::Warning, String::from_str("Failed to find any articles"));
            assert(lines_view(out@) =~= response_lines(self.articles@));
            return out;
        }
        let mut i: usize = 0;
        while i < self.articles.len()
            invariant
                i <= self.articles@.len(),
                lines_view(out@) == articles_lines(self.articles@.take(i as int)),
            decreases self.articles@.len() - i,
        {
            let a = &self.articles[i];
            push_line(&mut out, Style::Plain, String::new());
            push_line(&mut out, Style::Title, a.title.clone());
            let mut link = String::from_str(">>> ");
            link.append(a.url.as_str());
            push_line(&mut out, Style::Link, link);
            proof {
                let next = self.articles@.take(i as int + 1);
                assert(next.drop_last() =~= self.articles@.take(i as int));
                assert(next.last() == self.articles@[i as int]);
                assert(lines_view(out@) =~= articles_lines(next));
            }
            i = i + 1;
        }
        assert(self.articles@.take(i as int) =~= self.articles@);
        out
    }
}


/// A response with one article is shown as exactly that article's lines: one
/// title line with its title and one link line with its link.
pub proof fn lemma_one_article_lines(a: Article)
    ensures
        response_lines(seq![a]) == article_lines(a),
{
    let one = seq![a];
    assert(one.drop_last() =~= Seq::<Article>::empty());
    assert(one.last() == a);
    assert(articles_lines(one.drop_last()) == Seq::<(Style, Seq<char>)>::empty());
    assert(articles_lines(one) =~= Seq::<(Style, Seq<char>)>::empty() + article_lines(a));
    assert(articles_lines(one) =~= article_lines(a));
}

} // verus!
