use supervisor_core::watcher::{find_endpoint, line_is_error, TunnelWatch};

#[test]
fn endpoint_found_in_sample_log_line() {
    let line = "2024 INF tunnel connected https://foo-bar.example-tunnel.com";
    let url = find_endpoint(line);
    assert_eq!(url, Some("https://foo-bar.example-tunnel.com".to_string()));
}

#[test]
fn endpoint_sets_discovered_url() {
    let mut watch = TunnelWatch::new();
    let out = watch.process_line("2024 INF tunnel connected https://foo-bar.example-tunnel.com");
    assert_eq!(
        out.connected,
        Some("https://foo-bar.example-tunnel.com".to_string())
    );
    assert!(!out.error);
    assert!(watch.fired);
    assert_eq!(
        watch.url,
        Some("https://foo-bar.example-tunnel.com".to_string())
    );
}

#[test]
fn endpoint_fires_exactly_once_across_both_streams() {
    // Both streams carry a matching line; whatever their interleaving, the
    // shared watch announces the connection exactly once.
    let mut watch = TunnelWatch::new();
    let from_stdout = "INF https://one.example-tunnel.com registered";
    let from_stderr = "INF https://two.example-tunnel.com registered";
    let first = watch.process_line(from_stdout);
    let second = watch.process_line(from_stderr);
    assert_eq!(first.connected, Some("https://one.example-tunnel.com".to_string()));
    assert_eq!(second.connected, None);
    assert!(watch.fired);
    assert_eq!(watch.url, Some("https://one.example-tunnel.com".to_string()));
}

#[test]
fn reset_allows_next_lifetime_to_fire_again() {
    let mut watch = TunnelWatch::new();
    let out = watch.process_line("https://a.example-tunnel.com");
    assert!(out.connected.is_some());
    watch.reset();
    assert!(!watch.fired);
    assert_eq!(watch.url, None);
    let again = watch.process_line("https://b.example-tunnel.com");
    assert_eq!(again.connected, Some("https://b.example-tunnel.com".to_string()));
}

#[test]
fn no_endpoint_in_plain_line() {
    assert_eq!(find_endpoint("2024 INF starting tunnel"), None);
    assert_eq!(find_endpoint(""), None);
}

#[test]
fn empty_label_does_not_match() {
    assert_eq!(find_endpoint("https://.example-tunnel.com"), None);
}

#[test]
fn wrong_domain_does_not_match() {
    assert_eq!(find_endpoint("https://foo.other-domain.com up"), None);
}

#[test]
fn http_scheme_does_not_match() {
    assert_eq!(find_endpoint("http://foo.example-tunnel.com"), None);
}

#[test]
fn leftmost_of_two_urls_wins() {
    let line = "https://first.example-tunnel.com then https://second.example-tunnel.com";
    assert_eq!(
        find_endpoint(line),
        Some("https://first.example-tunnel.com".to_string())
    );
}

#[test]
fn match_amid_trailing_text() {
    let line = "visit https://a-1-b.example-tunnel.com/path now";
    assert_eq!(
        find_endpoint(line),
        Some("https://a-1-b.example-tunnel.com".to_string())
    );
}

#[test]
fn label_stops_at_non_label_character() {
    // The label may not contain a dot, so an inner subdomain breaks the match.
    assert_eq!(find_endpoint("https://a.b.example-tunnel.com"), None);
}

#[test]
fn label_may_mix_case_digits_and_hyphens() {
    assert_eq!(
        find_endpoint("x https://Ab-3-Z.example-tunnel.com"),
        Some("https://Ab-3-Z.example-tunnel.com".to_string())
    );
}

#[test]
fn url_alone_is_a_match() {
    assert_eq!(
        find_endpoint("https://a.example-tunnel.com"),
        Some("https://a.example-tunnel.com".to_string())
    );
}

#[test]
fn error_marker_flags_line() {
    assert!(line_is_error("WRN QuickTunnel rate limited"));
    assert!(!line_is_error("INF all good"));
}

#[test]
fn error_marker_and_endpoint_on_one_line() {
    let mut watch = TunnelWatch::new();
    let out = watch.process_line("QuickTunnel up at https://x.example-tunnel.com");
    assert_eq!(out.connected, Some("https://x.example-tunnel.com".to_string()));
    assert!(out.error);
}

#[test]
fn error_marker_after_fired_still_flagged() {
    let mut watch = TunnelWatch::new();
    watch.process_line("https://x.example-tunnel.com");
    let out = watch.process_line("QuickTunnel warning");
    assert_eq!(out.connected, None);
    assert!(out.error);
}
