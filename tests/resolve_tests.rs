use crab_crawler::resolve::{classify_link, handle_relative_paths, parent_path, resolve_links, LinkForm};

#[test]
fn test_handle_relative_paths_valid_url() {
    let url = "http://www.example.com";
    let referrer_url = &"http://www.referrer.com".to_string();
    let result = handle_relative_paths(url, referrer_url);
    assert_eq!(result.unwrap(), url);
}

#[test]
fn test_handle_relative_paths_anchor() {
    let url = "http://www.example.com#anchor";
    let referrer_url = &"http://www.referrer.com".to_string();
    let result = handle_relative_paths(url, referrer_url);
    assert_eq!(result.unwrap(), "http://www.example.com");
}

#[test]
fn test_handle_relative_paths_relative_path() {
    let url = "/relative/path";
    let referrer_url = &"http://www.example.com".to_string();
    let result = handle_relative_paths(url, referrer_url);
    assert_eq!(result.unwrap(), "www.example.com/relative/path");
}

#[test]
fn test_handle_relative_paths_protocol_relative_url() {
    let url = "//www.example.com";
    let referrer_url = &"http://www.referrer.com".to_string();
    let result = handle_relative_paths(url, referrer_url);
    assert_eq!(result.unwrap(), "https://www.example.com");
}

#[test]
fn test_handle_relative_paths_relative_path_with_dot_dot() {
    let url = "../relative/path";
    let referrer_url = &"http://www.example.com/folder".to_string();
    let result = handle_relative_paths(url, referrer_url);
    assert_eq!(result.unwrap(), "http://www.example.com/relative/path");
}

#[test]
fn test_handle_relative_paths_relative_path_with_double_dot_dot() {
    let url = "../../relative/path";
    let referrer_url = &"http://www.example.com/folder/folder2".to_string();
    let result = handle_relative_paths(url, referrer_url);
    assert_eq!(result.unwrap(), "http://www.example.com/relative/path");
}

#[test]
fn test_handle_relative_paths_relative_path_with_dot() {
    let url = "./relative/path";
    let referrer_url = &"http://www.example.com/folder".to_string();
    let result = handle_relative_paths(url, referrer_url);
    assert_eq!(result.unwrap(), "http://www.example.com/folder/relative/path");
}

#[test]
fn test_handle_relative_paths_relative_path_without_slash() {
    let url = "relative/path";
    let referrer_url = &"http://www.example.com/folder".to_string();
    let result = handle_relative_paths(url, referrer_url);
    assert_eq!(result.unwrap(), "http://www.example.com/folder/relative/path");
}

#[test]
fn test_handle_relative_paths_relative_file_path_without_slash() {
    let url = "relative/path";
    let referrer_url = &"http://www.example.com/file.html".to_string();
    let result = handle_relative_paths(url, referrer_url);
    assert_eq!(result.unwrap(), "http://www.example.com/relative/path");
}

#[test]
fn test_handle_relative_paths_invalid_url() {
    let url = "url:invalid";
    let referrer_url = &"http://www.referrer.com".to_string();
    let result = handle_relative_paths(url, referrer_url);
    assert!(result.is_err());
}

#[test]
fn parent_steps_start_above_the_referrer_page() {
    let r = "http://x.com/a/c".to_string();
    assert_eq!(handle_relative_paths("../b", &r).unwrap(), "http://x.com/b");
    let r = "http://x.com/a/c/d".to_string();
    assert_eq!(handle_relative_paths("../../b", &r).unwrap(), "http://x.com/b");
}

#[test]
fn parent_steps_stop_at_the_root() {
    let r = "http://x.com/a".to_string();
    assert_eq!(handle_relative_paths("../../../b", &r).unwrap(), "http://x.com/b");
}

#[test]
fn dot_then_parent_is_a_parent_step() {
    let r = "http://x.com/a/c".to_string();
    assert_eq!(handle_relative_paths("./../b", &r).unwrap(), "http://x.com/b");
}

#[test]
fn protocol_relative_gets_https() {
    let r = "http://x.com/a".to_string();
    assert_eq!(handle_relative_paths("//cdn.example.com/x", &r).unwrap(), "https://cdn.example.com/x");
}

#[test]
fn javascript_is_rejected_for_any_referrer() {
    for r in ["http://x.com/a", "https://www.example.com/", "not a url", ""] {
        assert!(handle_relative_paths("javascript:void(0)", &r.to_string()).is_err());
    }
}

#[test]
fn non_navigable_schemes_are_rejected() {
    let r = "http://x.com/".to_string();
    for t in ["mailto:a@b.c", "tel:123", "sms:1", "facetime:x", "skype:x", "slack:x", "zoom:x",
        "whatsapp:x", "fb-messenger:x", "vbscript:x", "itms:x", "market:x", "data:image/png;base64,AA"] {
        assert!(handle_relative_paths(t, &r).is_err(), "{}", t);
    }
}

#[test]
fn noop_tokens_are_rejected() {
    let r = "http://x.com/".to_string();
    for t in ["", "   ", "/", "#", "#top", "?q=1", "..//"] {
        assert!(handle_relative_paths(t, &r).is_err(), "{:?}", t);
    }
}

#[test]
fn surrounding_space_and_fragment_are_dropped() {
    let r = "http://x.com/".to_string();
    assert_eq!(handle_relative_paths("  http://y.com/p #frag ", &r).unwrap(), "http://y.com/p");
}

#[test]
fn ad_redirects_are_unwrapped() {
    let r = "http://www.x.com/a".to_string();
    assert_eq!(handle_relative_paths("clkn/http/y.com/p", &r).unwrap(), "http://y.com/p");
    assert_eq!(handle_relative_paths("clkn/rel//politics", &r).unwrap(), "www.x.com/politics");
}

#[test]
fn relative_tokens_need_a_parsable_referrer() {
    let r = "not a url".to_string();
    assert!(handle_relative_paths("a/b", &r).is_err());
    assert!(handle_relative_paths("/a", &r).is_err());
    assert!(handle_relative_paths("../a", &r).is_err());
    assert_eq!(handle_relative_paths("http://y.com", &r).unwrap(), "http://y.com");
}

#[test]
fn classification_counts_parent_steps() {
    match classify_link("../../x/y") {
        LinkForm::ParentRelative(n, rest) => {
            assert_eq!(n, 2);
            assert_eq!(rest, "x/y");
        }
        _ => panic!("expected a parent-relative link"),
    }
    assert!(matches!(classify_link("javascript:x"), LinkForm::Rejected));
    assert!(matches!(classify_link("./a"), LinkForm::Relative(ref s) if s == "a"));
}

#[test]
fn parent_path_drops_one_segment() {
    assert_eq!(parent_path("/a/c").as_deref(), Some("/a"));
    assert_eq!(parent_path("/a/c/").as_deref(), Some("/a"));
    assert_eq!(parent_path("/a").as_deref(), Some("/"));
    assert_eq!(parent_path("/"), None);
    assert_eq!(parent_path(""), None);
    assert_eq!(parent_path("a").as_deref(), Some(""));
}

#[test]
fn resolve_links_keeps_order_and_drops_rejections() {
    let tokens = vec!["/a".to_string(), "mailto:x".to_string(), "b".to_string()];
    let r = "http://x.com/dir/".to_string();
    assert_eq!(resolve_links(&tokens, &r), vec!["x.com/a", "http://x.com/dir/b"]);
}
