use simple_cli_news::articles::{Article, Response};
use simple_cli_news::list::{sources_url, Source, Sources};
use simple_cli_news::output::Style;

fn article(title: &str, url: &str) -> Article {
    Article {
        source_name: "S".to_string(),
        title: title.to_string(),
        description: None,
        author: None,
        url: url.to_string(),
    }
}

#[test]
fn no_articles_notice_only() {
    let lines = Response { articles: vec![] }.output();
    assert_eq!(lines.len(), 1);
    assert_eq!(lines[0].style, Style::Warning);
    assert_eq!(lines[0].text, "Failed to find any articles");
}

#[test]
fn one_article_lines() {
    let lines = Response { articles: vec![article("T", "U")] }.output();
    assert_eq!(lines.len(), 3);
    assert_eq!(lines[0].style, Style::Plain);
    assert_eq!(lines[0].text, "");
    assert_eq!(lines[1].style, Style::Title);
    assert_eq!(lines[1].text, "T");
    assert_eq!(lines[2].style, Style::Link);
    assert_eq!(lines[2].text, ">>> U");
    assert_eq!(lines.iter().filter(|l| l.style == Style::Title).count(), 1);
    assert_eq!(lines.iter().filter(|l| l.style == Style::Link).count(), 1);
}

#[test]
fn articles_keep_their_order() {
    let lines = Response { articles: vec![article("B", "u2"), article("A", "u1"), article("B", "u2")] }.output();
    assert_eq!(lines.len(), 9);
    assert_eq!(lines[1].text, "B");
    assert_eq!(lines[4].text, "A");
    assert_eq!(lines[5].text, ">>> u1");
    assert_eq!(lines[7].text, "B");
}

#[test]
fn no_sources_notice_only() {
    let lines = Sources { sources: vec![] }.display();
    assert_eq!(lines.len(), 1);
    assert_eq!(lines[0].style, Style::Warning);
    assert_eq!(lines[0].text, "No sources could be found for this country");
}

#[test]
fn source_lines() {
    let s = Source {
        name: "BBC News".to_string(),
        id: "bbc-news".to_string(),
        description: "News from the UK".to_string(),
    };
    let lines = Sources { sources: vec![s] }.display();
    assert_eq!(lines.len(), 4);
    assert_eq!(lines[0].style, Style::Heading);
    assert_eq!(lines[0].text, "BBC News");
    assert_eq!(lines[1].style, Style::Detail);
    assert_eq!(lines[1].text, "News from the UK");
    assert_eq!(lines[2].text, "id: bbc-news");
    assert_eq!(lines[3].style, Style::Plain);
    assert_eq!(lines[3].text, "");
}

#[test]
fn sources_url_with_and_without_country() {
    assert_eq!(
        sources_url("KEY", None),
        "https://newsapi.org/v2/top-headlines/sources?apiKey=KEY"
    );
    assert_eq!(
        sources_url("KEY", Some("fr")),
        "https://newsapi.org/v2/top-headlines/sources?apiKey=KEY&country=fr"
    );
}
