//! Crawl configuration.

use vstd::prelude::*;

verus! {

/// A desktop Chrome user agent, the default when agents do not rotate.
pub const USER_AGENT_CHROME: &'static str = "Mozilla/5.0 (Windows NT 10.0; Win64; x64) AppleWebKit/537.36 (KHTML, like Gecko) Chrome/58.0.3029.110 Safari/537.3";

/// A desktop Firefox user agent.
pub const USER_AGENT_FIREFOX: &'static str = "Mozilla/5.0 (Windows NT 10.0; Win64; x64; rv:53.0) Gecko/20100101 Firefox/53.0";

/// A desktop Safari user agent.
pub const USER_AGENT_SAFARI: &'static str = "Mozilla/5.0 (Macintosh; Intel Mac OS X 10_12_6) AppleWebKit/603.3.8 (KHTML, like Gecko) Version/10.1.2 Safari/603.3.8";

/// An Internet Explorer user agent.
pub const USER_AGENT_IE: &'static str = "Mozilla/5.0 (Windows NT 6.1; WOW64; Trident/7.0; AS; rv:11.0) like Gecko";

/// A desktop Edge user agent.
pub const USER_AGENT_EDGE: &'static str = "Mozilla/5.0 (Windows NT 10.0; Win64; x64) AppleWebKit/537.36 (KHTML, like Gecko) Chrome/64.0.3282.140 Safari/537.36 Edge/17.17134";

/// A desktop Opera user agent.
pub const USER_AGENT_OPERA: &'static str = "Mozilla/5.0 (Windows NT 10.0; Win64; x64) AppleWebKit/537.36 (KHTML, like Gecko) Chrome/77.0.3865.90 Safari/537.36 OPR/64.0.3417.54";

/// A desktop Brave user agent.
pub const USER_AGENT_BRAVE: &'static str = "Mozilla/5.0 (Windows NT 10.0; Win64; x64) AppleWebKit/537.36 (KHTML, like Gecko) Chrome/78.0.3904.108 Safari/537.36 Brave/78.1.3.15";

/// The default pool of user agents, in order.
pub const USER_AGENTS: [&'static str; 7] = [
    USER_AGENT_CHROME,
    USER_AGENT_FIREFOX,
    USER_AGENT_SAFARI,
    USER_AGENT_IE,
    USER_AGENT_EDGE,
    USER_AGENT_OPERA,
    USER_AGENT_BRAVE,
];

/// The views of the default pool of user agents, in order.
pub open spec fn default_user_agents() -> Seq<Seq<char>> {
    seq![
        USER_AGENT_CHROME@,
        USER_AGENT_FIREFOX@,
        USER_AGENT_SAFARI@,
        USER_AGENT_IE@,
        USER_AGENT_EDGE@,
        USER_AGENT_OPERA@,
        USER_AGENT_BRAVE@,
    ]
}

/// The views of a list of strings.
pub open spec fn views_of(v: Seq<String>) -> Seq<Seq<char>> {
    v.map_values(|s: String| s@)
}

/// Everything a crawl run reads from its configuration.
#[derive(Clone)]
pub struct Config {
    /// The seed URL.
    pub starting_url: String,
    /// The domains a link may lead to when crawling is not free.
    pub permitted_domains: Vec<String>,
    /// The domains a link may never lead to.
    pub blacklist_domains: Vec<String>,
    /// Whether any domain not blacklisted may be visited.
    pub free_crawl: bool,
    /// The page budget of a run.
    pub max_urls_to_visit: usize,
    /// The number of concurrent workers.
    pub max_threads: usize,
    /// Whether each request picks a user agent at random.
    pub rotate_user_agents: bool,
    /// Whether robots.txt rules are applied.
    pub respect_robots: bool,
    /// The wall-clock ceiling of a run, in seconds.
    pub crawler_timeout: u64,
    /// The timeout of one request, in seconds.
    pub crawler_request_timeout: u64,
    /// The pause after each visit, in milliseconds.
    pub crawler_request_delay_ms: u64,
    /// Whether page bodies are stored.
    pub collect_html: bool,
    /// Whether images are fetched and stored.
    pub collect_images: bool,
    /// Whether debug messages are printed.
    pub debug: bool,
    /// Whether each visit is printed.
    pub live_logging: bool,
    /// Whether results go to a database file.
    pub sqlite_enabled: bool,
    /// The database file.
    pub sqlite_path: String,
    /// The pool of user agents.
    pub user_agents: Vec<String>,
    /// Whether rewritten links are logged.
    pub log_relative_paths: bool,
}

impl Config {
    /// The default configuration: seeded at `https://www.cnn.com`, free
    /// crawling, a budget of 1000 pages over 8 workers, rotating the default
    /// user agents, respecting robots.txt, storing images but not bodies.
    pub fn new() -> (r: Config)
        ensures
            r.starting_url@ == "https://www.cnn.com"@,
            views_of(r.permitted_domains@) == seq!["www.cnn.com"@],
            r.blacklist_domains@.len() == 0,
            r.free_crawl,
            r.max_urls_to_visit == 1000,
            r.max_threads == 8,
            r.rotate_user_agents,
            r.respect_robots,
            r.crawler_timeout == 1200,
            r.crawler_request_timeout == 5,
            r.crawler_request_delay_ms == 5000,
            !r.collect_html,
            r.collect_images,
            !r.debug,
            r.live_logging,
            r.sqlite_enabled,
            r.sqlite_path@ == "db/crawl_results.db"@,
            views_of(r.user_agents@) == default_user_agents(),
            !r.log_relative_paths,
    {
        let mut user_agents: Vec<String> = Vec::new();
        user_agents.push(String::from_str(USER_AGENT_CHROME));
        user_agents.push(String::from_str(USER_AGENT_FIREFOX));
        user_agents.push(String::from_str(USER_AGENT_SAFARI));
        user_agents.push(String::from_str(USER_AGENT_IE));
        user_agents.push(String::from_str(USER_AGENT_EDGE));
        user_agents.push(String::from_str(USER_AGENT_OPERA));
        user_agents.push(String::from_str(USER_AGENT_BRAVE));
        let mut permitted_domains: Vec<String> = Vec::new();
        permitted_domains.push(String::from_str("www.cnn.com"));
        let r = Config {
            starting_url: String::from_str("https://www.cnn.com"),
            permitted_domains,
            blacklist_domains: Vec::new(),
            free_crawl: true,
            max_urls_to_visit: 1000,
            max_threads: 8,
            rotate_user_agents: true,
            respect_robots: true,
            crawler_timeout: 1200,
            crawler_request_timeout: 5,
            crawler_request_delay_ms: 5000,
            collect_html: false,
            collect_images: true,
            debug: false,
            live_logging: true,
            sqlite_enabled: true,
            sqlite_path: String::from_str("db/crawl_results.db"),
            user_agents,
            log_relative_paths: false,
        };
        assert(views_of(r.permitted_domains@) =~= seq!["www.cnn.com"@]);
        assert(views_of(r.user_agents@) =~= default_user_agents());
        r
    }

    /// Sets the seed URL.
    pub fn set_starting_url(&mut self, url: String) -> (r: &mut Self)
        ensures
            *r == (Config { starting_url: url, ..*old(self) }),
            *final(self) == *final(r),
    {
        self.starting_url = url;
        self
    }

    /// Sets the domains a link may lead to when crawling is not free.
    pub fn set_permitted_domains(&mut self, domains: Vec<String>) -> (r: &mut Self)
        ensures
            *r == (Config { permitted_domains: domains, ..*old(self) }),
            *final(self) == *final(r),
    {
        self.permitted_domains = domains;
        self
    }

    /// Sets the domains a link may never lead to.
    pub fn set_blacklist_domains(&mut self, domains: Vec<String>) -> (r: &mut Self)
        ensures
            *r == (Config { blacklist_domains: domains, ..*old(self) }),
            *final(self) == *final(r),
    {
        self.blacklist_domains = domains;
        self
    }

    /// Sets whether any domain not blacklisted may be visited.
    pub fn set_free_crawl(&mut self, free_crawl: bool) -> (r: &mut Self)
        ensures
            *r == (Config { free_crawl: free_crawl, ..*old(self) }),
            *final(self) == *final(r),
    {
        self.free_crawl = free_crawl;
        self
    }

    /// Sets the page budget of a run.
    pub fn set_max_urls_to_visit(&mut self, max: usize) -> (r: &mut Self)
        ensures
            *r == (Config { max_urls_to_visit: max, ..*old(self) }),
            *final(self) == *final(r),
    {
        self.max_urls_to_visit = max;
        self
    }

    /// Sets the number of concurrent workers.
    pub fn set_max_threads(&mut self, max: usize) -> (r: &mut Self)
        ensures
            *r == (Config { max_threads: max, ..*old(self) }),
            *final(self) == *final(r),
    {
        self.max_threads = max;
        self
    }

    /// Sets whether each request picks a user agent at random.
    pub fn set_rotate_user_agents(&mut self, rotate: bool) -> (r: &mut Self)
        ensures
            *r == (Config { rotate_user_agents: rotate, ..*old(self) }),
            *final(self) == *final(r),
    {
        self.rotate_user_agents = rotate;
        self
    }

    /// Sets whether robots.txt rules are applied.
    pub fn set_respect_robots(&mut self, respect: bool) -> (r: &mut Self)
        ensures
            *r == (Config { respect_robots: respect, ..*old(self) }),
            *final(self) == *final(r),
    {
        self.respect_robots = respect;
        self
    }

    /// Sets the wall-clock ceiling of a run, in seconds.
    pub fn set_crawler_timeout(&mut self, timeout: u64) -> (r: &mut Self)
        ensures
            *r == (Config { crawler_timeout: timeout, ..*old(self) }),
            *final(self) == *final(r),
    {
        self.crawler_timeout = timeout;
        self
    }

    /// Sets the timeout of one request, in seconds.
    pub fn set_crawler_request_timeout(&mut self, timeout: u64) -> (r: &mut Self)
        ensures
            *r == (Config { crawler_request_timeout: timeout, ..*old(self) }),
            *final(self) == *final(r),
    {
        self.crawler_request_timeout = timeout;
        self
    }

    /// Sets the pause after each visit, in milliseconds.
    pub fn set_crawler_request_delay_ms(&mut self, delay: u64) -> (r: &mut Self)
        ensures
            *r == (Config { crawler_request_delay_ms: delay, ..*old(self) }),
            *final(self) == *final(r),
    {
        self.crawler_request_delay_ms = delay;
        self
    }

    /// Sets whether page bodies are stored.
    pub fn set_collect_html(&mut self, collect: bool) -> (r: &mut Self)
        ensures
            *r == (Config { collect_html: collect, ..*old(self) }),
            *final(self) == *final(r),
    {
        self.collect_html = collect;
        self
    }

    /// Sets whether images are fetched and stored.
    pub fn set_collect_images(&mut self, collect: bool) -> (r: &mut Self)
        ensures
            *r == (Config { collect_images: collect, ..*old(self) }),
            *final(self) == *final(r),
    {
        self.collect_images = collect;
        self
    }

    /// Sets whether debug messages are printed.
    pub fn set_debug(&mut self, debug: bool) -> (r: &mut Self)
        ensures
            *r == (Config { debug: debug, ..*old(self) }),
            *final(self) == *final(r),
    {
        self.debug = debug;
        self
    }

    /// Sets whether each visit is printed.
    pub fn set_live_logging(&mut self, live: bool) -> (r: &mut Self)
        ensures
            *r == (Config { live_logging: live, ..*old(self) }),
            *final(self) == *final(r),
    {
        self.live_logging = live;
        self
    }

    /// Sets whether results go to a database file.
    pub fn set_sqlite_enabled(&mut self, enabled: bool) -> (r: &mut Self)
        ensures
            *r == (Config { sqlite_enabled: enabled, ..*old(self) }),
            *final(self) == *final(r),
    {
        self.sqlite_enabled = enabled;
        self
    }

    /// Sets the database file.
    pub fn set_sqlite_path(&mut self, path: String) -> (r: &mut Self)
        ensures
            *r == (Config { sqlite_path: path, ..*old(self) }),
            *final(self) == *final(r),
    {
        self.sqlite_path = path;
        self
    }

    /// Sets the pool of user agents.
    pub fn set_user_agents(&mut self, agents: Vec<String>) -> (r: &mut Self)
        ensures
            *r == (Config { user_agents: agents, ..*old(self) }),
            *final(self) == *final(r),
    {
        self.user_agents = agents;
        self
    }

    /// Sets whether rewritten links are logged.
    pub fn set_log_relative_paths(&mut self, log: bool) -> (r: &mut Self)
        ensures
            *r == (Config { log_relative_paths: log, ..*old(self) }),
            *final(self) == *final(r),
    {
        self.log_relative_paths = log;
        self
    }
}

} // verus!
