use crab_crawler::config::Config;
use crab_crawler::extract::{extract_attributes, extract_links};
use crab_crawler::fetch::{choose_user_agent, image_name, image_record, is_image_content_type};
use crab_crawler::robots::{blocked_by_verdict, robots_document, robots_domain, robots_txt_url, InMemoryCache};

#[test]
fn test_extract_attributes() {
    let html = "<html><body><a href='https://www.cnn.com'>Link</a></body></html>";
    let result = extract_attributes(html, "a[href]", "href");
    assert_eq!(result.unwrap(), vec!["https://www.cnn.com"]);
}

#[test]
fn test_extract_links() {
    let html = "<html><body><a href='https://www.cnn.com'>Link</a></body></html>";
    let result = extract_links(html);
    assert!(result.is_ok());
    let site_urls = result.unwrap();
    assert_eq!(site_urls.link_links, vec!["https://www.cnn.com"]);
}

#[test]
fn extract_links_finds_images_in_order() {
    let html = "<p><img src='a.png'><a href='/x'>x</a><img src='b.png'><img alt='none'></p>";
    let links = extract_links(html).unwrap();
    assert_eq!(links.img_links, vec!["a.png", "b.png"]);
    assert_eq!(links.link_links, vec!["/x"]);
}

#[test]
fn bad_selector_is_reported() {
    assert!(extract_attributes("<p></p>", "[[", "href").is_none());
}

#[test]
fn cache_returns_latest_value() {
    let mut cache = InMemoryCache::new();
    assert_eq!(cache.get("a.com"), None);
    cache.set("a.com".to_string(), "User-agent: *".to_string());
    cache.set("b.com".to_string(), "".to_string());
    cache.set("a.com".to_string(), "Disallow: /".to_string());
    assert_eq!(cache.get("a.com").as_deref(), Some("Disallow: /"));
    assert_eq!(cache.get("b.com").as_deref(), Some(""));
    assert_eq!(cache.get("c.com"), None);
}

#[test]
fn robots_locations_and_fail_open() {
    assert_eq!(robots_txt_url("a.com", true), "https://a.com/robots.txt");
    assert_eq!(robots_txt_url("a.com", false), "http://a.com/robots.txt");
    assert_eq!(robots_domain("https://sub.a.com/x").as_deref(), Some("sub.a.com"));
    assert_eq!(robots_domain("http://10.0.0.1/x"), None);
    assert_eq!(robots_document(Some("s".to_string()), Some("p".to_string())), "s");
    assert_eq!(robots_document(None, Some("p".to_string())), "p");
    assert_eq!(robots_document(None, None), "");
    assert!(blocked_by_verdict(Some(false)));
    assert!(!blocked_by_verdict(Some(true)));
    assert!(!blocked_by_verdict(None));
}

#[test]
fn user_agent_choice() {
    let mut config = Config::new();
    config.set_user_agents(vec!["A".to_string(), "B".to_string()]);
    config.set_rotate_user_agents(false);
    assert_eq!(choose_user_agent(&config).as_deref(), Some("A"));
    config.set_rotate_user_agents(true);
    for _ in 0..20 {
        let a = choose_user_agent(&config).unwrap();
        assert!(a == "A" || a == "B");
    }
    config.set_user_agents(vec![]);
    assert_eq!(choose_user_agent(&config), None);
}

#[test]
fn image_content_types() {
    assert!(is_image_content_type(Some("image/png")));
    assert!(!is_image_content_type(Some("text/html")));
    assert!(is_image_content_type(None));
}

#[test]
fn image_names_and_records() {
    assert_eq!(image_name("https://a.com/img/cat.png?x=1"), "cat.png");
    assert_eq!(image_name("https://a.com/"), "");
    assert_eq!(image_name("data:abc"), ".jpg");
    assert_eq!(image_name("nonsense"), ".jpg");
    assert!(image_record("http://a.com/", "http://a.com/i.png", 0).is_none());
    let rec = image_record("https://www.a.com/page/", "http://a.com/i/x.png", 3).unwrap();
    assert_eq!(rec.referrer, "a.com/page");
    assert_eq!(rec.url, "a.com/i/x.png");
    assert_eq!(rec.name, "x.png");
}
