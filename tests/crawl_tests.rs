use crab_crawler::admission::{is_domain_allowed, is_valid_site, SeenSet};
use crab_crawler::canonical::format_url_for_storage;
use crab_crawler::config::Config;
use crab_crawler::crawl::{Admission, Candidate, Crawler, VisitOutcome, VisitedSite, ROOT_REFERRER};

fn key(s: &str) -> String {
    format_url_for_storage(s.to_string())
}

#[test]
fn canonical_key_strips_scheme_www_query_and_slash() {
    assert_eq!(key("https://www.example.com/path/?q=1"), "example.com/path");
    assert_eq!(key("http://example.com/path"), "example.com/path");
    assert_eq!(key("http://example.com//"), "example.com");
    assert_eq!(key("ftp://example.com/"), "ftp://example.com");
}

#[test]
fn canonical_key_keeps_case() {
    assert_eq!(key("http://Example.COM/A"), "Example.COM/A");
}

#[test]
fn canonical_key_is_idempotent_on_samples() {
    for u in ["https://www.example.com/path/?q=1", "http://a.com", "http://www.www.a.com/x/", "https://a.com/?"] {
        let once = key(u);
        assert_eq!(key(&once), once);
    }
}

#[test]
fn test_is_valid_site() {
    let url = "https://www.cnn.com";
    let config: Config = Config::new();
    let (_, is_valid) = is_valid_site(&config, url);
    assert!(is_valid);
}

#[test]
fn domain_policy_applies_lists() {
    let mut config = Config::new();
    config.set_free_crawl(false);
    config.set_permitted_domains(vec!["a.com".to_string()]);
    config.set_blacklist_domains(vec!["b.com".to_string()]);
    assert!(is_domain_allowed(&config, "a.com"));
    assert!(!is_domain_allowed(&config, "c.com"));
    config.set_free_crawl(true);
    assert!(is_domain_allowed(&config, "c.com"));
    assert!(!is_domain_allowed(&config, "b.com"));
    assert!(!is_valid_site(&config, "http://b.com/x").1);
    assert!(!is_valid_site(&config, "http://127.0.0.1/x").1);
    let (parsed, ok) = is_valid_site(&config, "not a url");
    assert!(parsed.is_none() && !ok);
}

#[test]
fn seen_set_claims_once() {
    let mut seen = SeenSet::new();
    assert!(seen.claim("a.com".to_string()));
    assert!(!seen.claim("a.com".to_string()));
    assert!(seen.contains("a.com"));
    assert!(!seen.contains("b.com"));
}

fn test_config(max: usize) -> Config {
    let mut config = Config::new();
    config.set_max_urls_to_visit(max);
    config.set_respect_robots(true);
    config
}

#[test]
fn budget_stops_visits() {
    let mut c = Crawler::new(test_config(2));
    assert!(c.begin_visit("http://a.com/1", ROOT_REFERRER, 10).is_some());
    assert!(c.begin_visit("http://a.com/2", "http://a.com/1", 11).is_some());
    assert!(c.begin_visit("http://a.com/3", "http://a.com/1", 12).is_none());
    assert_eq!(c.visited_count(), 2);
}

#[test]
fn visit_record_uses_canonical_keys() {
    let mut c = Crawler::new(test_config(5));
    let v: VisitedSite = c.begin_visit("https://www.a.com/p/?x=1", "http://a.com/", 42).unwrap();
    assert_eq!(v.url(), "a.com/p");
    assert_eq!(v.referrer(), "a.com");
    assert_eq!(v.visited_at(), 42);
}

#[test]
fn failed_fetch_is_a_successful_leaf() {
    let mut c = Crawler::new(test_config(5));
    let v = c.begin_visit("http://a.com/p", ROOT_REFERRER, 0).unwrap();
    let end = c.end_visit(v.url(), VisitOutcome::FetchFailed);
    assert!(end.success);
    assert!(!end.mark_complete);
    assert_eq!(c.visited_count(), 1);
}

#[test]
fn explored_page_is_marked_complete_only_if_children_succeeded() {
    let mut c = Crawler::new(test_config(5));
    let v = c.begin_visit("http://a.com/p", ROOT_REFERRER, 0).unwrap();
    let end = c.end_visit(v.url(), VisitOutcome::Explored(false));
    assert!(!end.success && !end.mark_complete);
    let end = c.end_visit(v.url(), VisitOutcome::Explored(true));
    assert!(end.success && end.mark_complete);
    let end = c.end_visit("never.visited", VisitOutcome::Explored(true));
    assert!(end.success && !end.mark_complete);
}

fn admitted_url(a: Admission) -> Option<String> {
    match a {
        Admission::Admitted(c) => Some(c.url),
        _ => None,
    }
}

#[test]
fn seed_is_admitted_even_when_complete_but_links_to_it_are_not() {
    let mut c = Crawler::new(test_config(5));
    let seed = c.start_run("http://a.com/").unwrap();
    assert_eq!(seed.key, "a.com");
    // From the root the seed bypasses dedup and the completion check.
    assert!(admitted_url(c.begin_admission("http://a.com/", ROOT_REFERRER)).is_some());
    // As a link it is already seen.
    assert!(matches!(c.begin_admission("http://a.com/", "http://a.com/x"), Admission::Rejected));
    // A fresh link to a page that the store reports complete is rejected.
    let step = c.begin_admission("http://a.com/done", "http://a.com/");
    let cand = match step {
        Admission::CheckCompleted(cand) => cand,
        _ => panic!("expected a completion check"),
    };
    assert!(matches!(c.completion_checked(cand, true), Admission::Rejected));
    assert!(matches!(c.begin_admission("http://a.com/done", "http://a.com/"), Admission::Rejected));
}

#[test]
fn robots_blocked_links_are_rejected_and_settled() {
    let mut c = Crawler::new(test_config(5));
    let cand = match c.begin_admission("http://a.com/private", "http://a.com/") {
        Admission::CheckCompleted(cand) => cand,
        _ => panic!("expected a completion check"),
    };
    let cand = match c.completion_checked(cand, false) {
        Admission::CheckRobots(cand) => cand,
        _ => panic!("expected a robots check"),
    };
    assert!(matches!(c.robots_checked(cand, true), Admission::Rejected));
    assert!(matches!(c.begin_admission("http://a.com/private", "http://a.com/"), Admission::Rejected));
}

#[test]
fn without_robots_an_unseen_link_is_admitted_once() {
    let mut config = test_config(5);
    config.set_respect_robots(false);
    let mut c = Crawler::new(config);
    let a = match c.begin_admission("http://a.com/x?q=1", "http://a.com/") {
        Admission::CheckCompleted(cand) => cand,
        _ => panic!("expected a completion check"),
    };
    let b = match c.begin_admission("https://www.a.com/x/", "http://a.com/") {
        Admission::CheckCompleted(cand) => cand,
        _ => panic!("expected a completion check"),
    };
    assert_eq!(a.key, b.key);
    assert_eq!(admitted_url(c.completion_checked(a, false)).as_deref(), Some("http://a.com/x?q=1"));
    assert!(matches!(c.completion_checked(b, false), Admission::Rejected));
}

#[test]
fn concurrent_claims_admit_exactly_one() {
    let mut c = Crawler::new(test_config(5));
    let mk = || Candidate { url: "http://a.com/y".to_string(), key: "a.com/y".to_string() };
    let first = c.robots_checked(mk(), false);
    let second = c.robots_checked(mk(), false);
    assert!(matches!(first, Admission::Admitted(_)));
    assert!(matches!(second, Admission::Rejected));
}

#[test]
fn disallowed_domain_is_rejected_at_once() {
    let mut config = test_config(5);
    config.set_free_crawl(false);
    config.set_permitted_domains(vec!["a.com".to_string()]);
    let mut c = Crawler::new(config);
    assert!(matches!(c.begin_admission("http://b.com/", "http://a.com/"), Admission::Rejected));
    assert!(c.start_run("http://b.com/").is_none());
    assert!(c.start_run("not a url").is_none());
}
