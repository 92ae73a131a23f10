use horizon::ui::browser::{is_domain_like, process_url_input, BrowserState};
use horizon::ui::settings::SearchEngine;

#[test]
fn address_bar_keeps_known_schemes() {
    assert_eq!(process_url_input("  about:blank ", SearchEngine::Google), "about:blank");
    assert_eq!(process_url_input("http://x", SearchEngine::Google), "http://x");
    assert_eq!(process_url_input("https://a.b/c d", SearchEngine::Google), "https://a.b/c d");
}

#[test]
fn address_bar_reads_domains() {
    assert_eq!(process_url_input("example.com", SearchEngine::Google), "https://example.com");
    assert_eq!(process_url_input(" www.rust-lang.org\n", SearchEngine::Bing), "https://www.rust-lang.org");
    assert_eq!(process_url_input("foo.\u{e9}", SearchEngine::Bing), "https://foo.\u{e9}");
    assert!(is_domain_like("a.io"));
    assert!(!is_domain_like("a.i"));
    assert!(!is_domain_like("a.i-o"));
    assert!(!is_domain_like("noDot"));
}

#[test]
fn address_bar_searches_the_rest() {
    assert_eq!(
        process_url_input("hello world", SearchEngine::DuckDuckGo),
        "https://duckduckgo.com/?q=hello%20world"
    );
    assert_eq!(process_url_input("foo.c", SearchEngine::DuckDuckGo), "https://duckduckgo.com/?q=foo.c");
    assert_eq!(process_url_input("a.bc d", SearchEngine::Brave), "https://search.brave.com/search?q=a.bc%20d");
}

#[test]
fn window_commands_follow_the_tab_bar() {
    let mut s = BrowserState::new("https://home.test".to_string(), SearchEngine::DuckDuckGo);
    assert_eq!(s.url_input(), "about:home");
    s.request_close_active();
    assert_eq!(s.pending_close(), None);
    s.open_new_tab();
    assert_eq!(s.tab_manager().tab_count(), 2);
    s.set_url_input("example.org");
    s.submit_address();
    assert_eq!(s.url_input(), "https://example.org");
    assert!(s.back());
    assert_eq!(s.url_input(), "about:home");
    assert!(s.forward());
    assert_eq!(s.url_input(), "https://example.org");
    assert!(!s.forward());
    s.go_home();
    assert_eq!(s.url_input(), "https://home.test");
    assert_eq!(s.tab_manager().active_tab().history.len(), 3);
    s.stop_loading();
    assert!(!s.tab_manager().active_tab().is_loading);
    s.reload();
    assert!(s.tab_manager().active_tab().is_loading);
    s.request_close_active();
    assert_eq!(s.pending_close(), Some(1));
    assert!(s.apply_pending_close());
    assert_eq!(s.pending_close(), None);
    assert_eq!(s.tab_manager().tab_count(), 1);
    assert_eq!(s.url_input(), "about:home");
    assert!(!s.apply_pending_close());
    s.request_close(0);
    assert!(!s.apply_pending_close());
    assert_eq!(s.tab_manager().tab_count(), 1);
    assert!(!s.switch_to(3));
    s.open("about:settings");
    assert_eq!(s.url_input(), "about:settings");
}
