use simple_cli_news::config::NewsConfig;
use simple_cli_news::request::{Endpoint, Request, DEFAULT_PAGE_SIZE, SEARCH_WINDOW_SECS};

fn config() -> NewsConfig {
    NewsConfig::new("KEY".to_string(), "en".to_string())
}

fn headlines(country: Option<&str>, category: Option<&str>, sources: Option<&str>) -> Request {
    Request::new(
        Endpoint::Headlines {
            country: country.map(|c| c.to_string()),
            category: category.map(|c| c.to_string()),
        },
        "KEY".to_string(),
        sources.map(|s| s.to_string()),
        None,
        20,
        "en".to_string(),
    )
}

#[test]
fn default_request_url() {
    let r = Request::new_empty(config());
    assert_eq!(r.page_size, DEFAULT_PAGE_SIZE);
    assert_eq!(
        r.build_url(),
        "https://newsapi.org/v2/top-headlines?language=en&pageSize=20&apiKey=KEY"
    );
}

#[test]
fn headlines_with_all_filters() {
    let mut r = headlines(Some("us"), Some("science"), None);
    r.q = Some("mars".to_string());
    assert_eq!(
        r.build_url(),
        "https://newsapi.org/v2/top-headlines?country=us&category=science&q=mars&language=en&pageSize=20&apiKey=KEY"
    );
}

#[test]
fn sources_suppress_country() {
    let r = headlines(Some("us"), Some("science"), Some("bbc-news,cnn"));
    let url = r.build_url();
    assert!(!url.contains("country="));
    assert_eq!(
        url,
        "https://newsapi.org/v2/top-headlines?category=science&sources=bbc-news,cnn&language=en&pageSize=20&apiKey=KEY"
    );
}

#[test]
fn sources_suppress_country_without_category() {
    let r = headlines(Some("fr"), None, Some("le-monde"));
    assert!(!r.build_url().contains("country="));
}

#[test]
fn search_url_defaults_and_order() {
    let r = Request::new_empty(config()).with_everything_at(1_000_000_000);
    let url = r.build_url();
    assert!(url.starts_with("https://newsapi.org/v2/everything?"));
    assert!(url.contains("pageSize=20"));
    assert!(url.ends_with("&language=en&pageSize=20&apiKey=KEY"));
}

#[test]
fn search_url_from_date() {
    let mut r = Request::new_empty(config()).with_everything_at(0);
    r.endpoint = Endpoint::Everything { from: Some(0) };
    assert_eq!(
        r.build_url(),
        "https://newsapi.org/v2/everything?from=1970-01-01&language=en&pageSize=20&apiKey=KEY"
    );
    r.endpoint = Endpoint::Everything { from: Some(1_431_648_000) };
    assert!(r.build_url().contains("from=2015-05-15&"));
}

#[test]
fn search_url_without_from() {
    let mut r = Request::new_empty(config());
    r.endpoint = Endpoint::Everything { from: None };
    r.page_size = -3;
    assert_eq!(
        r.build_url(),
        "https://newsapi.org/v2/everything?language=en&pageSize=-3&apiKey=KEY"
    );
}

#[test]
fn url_is_the_same_each_time() {
    let mut r = headlines(Some("de"), None, None);
    r.q = Some("x".to_string());
    assert_eq!(r.build_url(), r.build_url());
    let s = Request::new_empty(config()).with_everything_at(123_456_789);
    assert_eq!(s.build_url(), s.build_url());
}

#[test]
fn switch_to_search_starts_window() {
    let r = headlines(Some("us"), None, None).with_everything_at(2_000_000);
    assert!(matches!(r.endpoint, Endpoint::Everything { from: Some(t) } if t == 2_000_000 - SEARCH_WINDOW_SECS));
    assert_eq!(SEARCH_WINDOW_SECS, 864_000);
    let low = headlines(None, None, None).with_everything_at(i64::MIN + 5);
    assert!(matches!(low.endpoint, Endpoint::Everything { from: Some(t) } if t == i64::MIN));
}

#[test]
fn switch_to_search_keeps_start() {
    let mut r = headlines(None, None, None);
    r.endpoint = Endpoint::Everything { from: Some(77) };
    let r = r.with_everything_at(5_000_000);
    assert!(matches!(r.endpoint, Endpoint::Everything { from: Some(77) }));
    let r = r.with_everything();
    assert!(matches!(r.endpoint, Endpoint::Everything { from: Some(77) }));
}

#[test]
fn with_everything_switches_headlines() {
    let r = headlines(Some("us"), None, None).with_everything();
    assert!(matches!(r.endpoint, Endpoint::Everything { from: Some(_) }));
    assert_eq!(r.apikey, "KEY");
}

#[test]
fn switch_to_headlines() {
    let r = headlines(Some("us"), Some("health"), None).with_headlines();
    match &r.endpoint {
        Endpoint::Headlines { country, category } => {
            assert_eq!(country.as_deref(), Some("us"));
            assert_eq!(category.as_deref(), Some("health"));
        }
        _ => panic!("expected headlines"),
    }
    let s = r.with_everything_at(10_000_000).with_headlines();
    assert!(matches!(s.endpoint, Endpoint::Headlines { country: None, category: None }));
    assert_eq!(s.language, "en");
}
