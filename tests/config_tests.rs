use crab_crawler::config::{Config, USER_AGENTS};

#[test]
fn test_config_setters() {
    let mut config: Config = Config::new();

    assert_eq!(config.starting_url, "https://www.cnn.com");
    assert_eq!(config.permitted_domains, vec!["www.cnn.com"]);
    assert_eq!(config.blacklist_domains, Vec::<String>::new());
    assert_eq!(config.free_crawl, true);
    assert_eq!(config.max_urls_to_visit, 1000);
    assert_eq!(config.max_threads, 8);
    assert_eq!(config.rotate_user_agents, true);
    assert_eq!(config.respect_robots, true);
    assert_eq!(config.crawler_timeout, 1200);
    assert_eq!(config.crawler_request_timeout, 5);
    assert_eq!(config.crawler_request_delay_ms, 5000);
    assert_eq!(config.collect_html, false);
    assert_eq!(config.collect_images, true);
    assert_eq!(config.debug, false);
    assert_eq!(config.live_logging, true);
    assert_eq!(config.sqlite_enabled, true);
    assert_eq!(config.sqlite_path, "db/crawl_results.db");
    assert_eq!(config.user_agents, USER_AGENTS.iter().map(|&s| s.to_string()).collect::<Vec<String>>());
    assert_eq!(config.log_relative_paths, false);

    config.set_starting_url("https://www.example.com".to_string());
    config.set_permitted_domains(vec!["www.example.com".to_string()]);
    config.set_blacklist_domains(vec!["www.blacklisted.com".to_string()]);
    config.set_free_crawl(false);
    config.set_max_urls_to_visit(500);
    config.set_max_threads(4);
    config.set_rotate_user_agents(false);
    config.set_respect_robots(false);
    config.set_crawler_timeout(600);
    config.set_crawler_request_timeout(10);
    config.set_crawler_request_delay_ms(10000);
    config.set_collect_html(true);
    config.set_collect_images(false);
    config.set_debug(true);
    config.set_live_logging(false);
    config.set_sqlite_enabled(false);
    config.set_sqlite_path("db/test.db".to_string());
    config.set_user_agents(vec!["TestAgent".to_string()]);
    config.set_log_relative_paths(true);

    assert_eq!(config.starting_url, "https://www.example.com");
    assert_eq!(config.permitted_domains, vec!["www.example.com"]);
    assert_eq!(config.blacklist_domains, vec!["www.blacklisted.com"]);
    assert_eq!(config.free_crawl, false);
    assert_eq!(config.max_urls_to_visit, 500);
    assert_eq!(config.max_threads, 4);
    assert_eq!(config.rotate_user_agents, false);
    assert_eq!(config.respect_robots, false);
    assert_eq!(config.crawler_timeout, 600);
    assert_eq!(config.crawler_request_timeout, 10);
    assert_eq!(config.crawler_request_delay_ms, 10000);
    assert_eq!(config.collect_html, true);
    assert_eq!(config.collect_images, false);
    assert_eq!(config.debug, true);
    assert_eq!(config.live_logging, false);
    assert_eq!(config.sqlite_enabled, false);
    assert_eq!(config.sqlite_path, "db/test.db");
    assert_eq!(config.user_agents, vec!["TestAgent"]);
    assert_eq!(config.log_relative_paths, true);
}

#[test]
fn setters_chain_on_the_returned_reference() {
    let mut config = Config::new();
    config.set_max_threads(2).set_max_urls_to_visit(3).set_free_crawl(false);
    assert_eq!(config.max_threads, 2);
    assert_eq!(config.max_urls_to_visit, 3);
    assert!(!config.free_crawl);
    assert_eq!(config.starting_url, "https://www.cnn.com");
}
