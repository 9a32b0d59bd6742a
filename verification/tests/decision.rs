use proxy_cfg::{ProxyConfig, UrlParts};

fn parts(s: &str) -> UrlParts {
    let u = url::Url::parse(s).unwrap();
    UrlParts { text: u.as_str().to_string(), scheme: u.scheme().to_string() }
}

fn sample_config() -> ProxyConfig {
    let mut config = ProxyConfig::default();
    config.add_proxy("http".to_string(), "1.1.1.1".to_string());
    config.add_proxy("https".to_string(), "2.2.2.2".to_string());
    config.add_whitelist_entry("www.devolutions.net".to_string());
    config.add_whitelist_entry("*.microsoft.com".to_string());
    config.add_whitelist_entry("*apple.com".to_string());
    config.set_exclude_simple(true);
    config
}

#[test]
fn test_get_proxy_for_url() {
    let proxy_config = sample_config();

    assert_eq!(proxy_config.get_proxy_for_url(&parts("http://simpledomain")), None);
    assert_eq!(
        proxy_config.get_proxy_for_url(&parts("http://simple.domain")),
        Some("1.1.1.1".into())
    );
    assert_eq!(proxy_config.get_proxy_for_url(&parts("http://www.devolutions.net")), None);
    assert_eq!(proxy_config.get_proxy_for_url(&parts("http://www.microsoft.com")), None);
    assert_eq!(
        proxy_config.get_proxy_for_url(&parts("http://www.microsoft.com.fun")),
        Some("1.1.1.1".into())
    );
    assert_eq!(proxy_config.get_proxy_for_url(&parts("http://test.apple.com")), None);
    assert_eq!(
        proxy_config.get_proxy_for_url(&parts("https://test.apple.net")),
        Some("2.2.2.2".into())
    );
}

#[test]
fn simple_hostname_bypasses_when_excluded() {
    let proxy_config = sample_config();
    assert!(!proxy_config.use_proxy_for_address("localhost"));
    assert!(!proxy_config.use_proxy_for_address("http://intranet"));
    assert!(proxy_config.use_proxy_for_address("intra.net"));
}

#[test]
fn simple_hostname_proxied_when_not_excluded() {
    let mut config = ProxyConfig::default();
    config.add_proxy("http".to_string(), "1.1.1.1".to_string());
    assert!(config.use_proxy_for_address("localhost"));
    assert_eq!(config.get_proxy_for_url(&parts("http://intranet")), Some("1.1.1.1".into()));
}

#[test]
fn whitelist_match_is_case_insensitive() {
    let proxy_config = sample_config();
    assert!(!proxy_config.use_proxy_for_address("WWW.DEVOLUTIONS.NET"));
    assert!(!proxy_config.use_proxy_for_address("http://WWW.Devolutions.NET"));
}

#[test]
fn host_is_taken_from_the_url_when_it_parses() {
    let mut config = ProxyConfig::default();
    config.add_whitelist_entry("example.com".to_string());
    // The host component, not the whole address, is matched and lowercased.
    assert!(!config.use_proxy_for_address("http://EXAMPLE.COM/some/path?q=1"));
    // A non-URL address is used whole, as an opaque host.
    assert!(!config.use_proxy_for_address("example.com"));
    assert!(config.use_proxy_for_address("http://example.org/example.com"));
}

#[test]
fn wildcard_needs_nonempty_suffix() {
    let mut config = ProxyConfig::default();
    config.add_whitelist_entry("*".to_string());
    assert!(config.use_proxy_for_address("anything.example.net"));
}

#[test]
fn wildcard_uses_text_after_last_marker() {
    let mut config = ProxyConfig::default();
    config.add_whitelist_entry("*.example.*.net".to_string());
    assert!(!config.use_proxy_for_address("host.net"));
    assert!(config.use_proxy_for_address("host.example.other.org"));
}

#[test]
fn no_proxy_entry_for_scheme_yields_none() {
    let proxy_config = sample_config();
    assert_eq!(proxy_config.get_proxy_for_url(&parts("ftp://simple.domain")), None);
}

#[test]
fn proxy_value_is_lowercased() {
    let mut config = ProxyConfig::default();
    config.add_proxy("http".to_string(), "PROXY.Example.COM:8080".to_string());
    assert_eq!(
        config.get_proxy_for_url(&parts("http://simple.domain")),
        Some("proxy.example.com:8080".into())
    );
}

#[test]
fn later_proxy_entry_supersedes_earlier() {
    let mut config = ProxyConfig::default();
    config.add_proxy("http".to_string(), "1.1.1.1".to_string());
    config.add_proxy("http".to_string(), "3.3.3.3".to_string());
    assert_eq!(config.get_proxy_for_url(&parts("http://simple.domain")), Some("3.3.3.3".into()));
}

#[test]
fn default_config_proxies_everything_and_knows_nothing() {
    let config = ProxyConfig::default();
    assert!(config.use_proxy_for_address("anything"));
    assert!(!config.excludes_simple_hostnames());
    assert!(config.proxy_entries().is_empty());
    assert!(config.whitelist_entries().is_empty());
    assert_eq!(config.get_proxy_for_url(&parts("http://simple.domain")), None);
}

#[test]
fn accessors_reflect_what_was_added() {
    let config = sample_config();
    assert!(config.excludes_simple_hostnames());
    assert_eq!(
        config.proxy_entries(),
        &vec![
            ("http".to_string(), "1.1.1.1".to_string()),
            ("https".to_string(), "2.2.2.2".to_string()),
        ]
    );
    assert_eq!(
        config.whitelist_entries(),
        &vec![
            "www.devolutions.net".to_string(),
            "*.microsoft.com".to_string(),
            "*apple.com".to_string(),
        ]
    );
}
