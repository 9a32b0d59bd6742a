use std::cell::Cell;

use proxy_cfg::{
    get_proxy_config, get_proxy_config_from, resolve_outcomes, ProxyConfig, ProxyError,
    ProxySource,
};

/// A scripted source that counts how often it is queried.
struct MockSource {
    calls: Cell<usize>,
    outcome: fn() -> Result<Option<ProxyConfig>, ProxyError>,
}

impl MockSource {
    fn new(outcome: fn() -> Result<Option<ProxyConfig>, ProxyError>) -> Self {
        MockSource { calls: Cell::new(0), outcome }
    }
}

impl ProxySource for MockSource {
    fn query(&self) -> Result<Option<ProxyConfig>, ProxyError> {
        self.calls.set(self.calls.get() + 1);
        (self.outcome)()
    }
}

fn found() -> Result<Option<ProxyConfig>, ProxyError> {
    let mut config = ProxyConfig::default();
    config.add_proxy("http".to_string(), "1.1.1.1".to_string());
    Ok(Some(config))
}

fn nothing() -> Result<Option<ProxyConfig>, ProxyError> {
    Ok(None)
}

fn failure_one() -> Result<Option<ProxyConfig>, ProxyError> {
    Err(ProxyError::Source("first source broke".to_string()))
}

fn failure_two() -> Result<Option<ProxyConfig>, ProxyError> {
    Err(ProxyError::Source("second source broke".to_string()))
}

#[test]
fn smoke_test_get_proxies() {
    let _ = get_proxy_config();
}

#[test]
fn smoke_test_get_proxy_for_url() {
    if let Ok(Some(proxy_config)) = get_proxy_config() {
        let u = url::Url::parse("https://google.com").unwrap();
        let _ = proxy_config.get_proxy_for_url(&proxy_cfg::UrlParts {
            text: u.as_str().to_string(),
            scheme: u.scheme().to_string(),
        });
    }
}

#[test]
fn builtin_discovery_has_no_sources() {
    assert_eq!(get_proxy_config(), Err(ProxyError::PlatformNotSupported));
}

#[test]
fn empty_source_list_is_platform_not_supported() {
    let sources: Vec<MockSource> = Vec::new();
    assert_eq!(get_proxy_config_from(&sources), Err(ProxyError::PlatformNotSupported));
}

#[test]
fn first_find_short_circuits_later_sources() {
    let sources = vec![
        MockSource::new(nothing),
        MockSource::new(found),
        MockSource::new(failure_one),
        MockSource::new(found),
    ];
    assert_eq!(get_proxy_config_from(&sources), found());
    assert_eq!(sources[0].calls.get(), 1);
    assert_eq!(sources[1].calls.get(), 1);
    assert_eq!(sources[2].calls.get(), 0);
    assert_eq!(sources[3].calls.get(), 0);
}

#[test]
fn error_is_superseded_by_later_find() {
    let sources = vec![MockSource::new(failure_one), MockSource::new(found)];
    assert_eq!(get_proxy_config_from(&sources), found());
    assert_eq!(sources[0].calls.get(), 1);
    assert_eq!(sources[1].calls.get(), 1);
}

#[test]
fn last_error_is_reported_when_nothing_is_found() {
    let sources = vec![
        MockSource::new(failure_one),
        MockSource::new(nothing),
        MockSource::new(failure_two),
        MockSource::new(nothing),
    ];
    assert_eq!(get_proxy_config_from(&sources), failure_two());
}

#[test]
fn all_quiet_sources_mean_nothing_configured() {
    let sources = vec![MockSource::new(nothing), MockSource::new(nothing)];
    assert_eq!(get_proxy_config_from(&sources), Ok(None));
}

#[test]
fn resolve_outcomes_picks_first_find() {
    let outcomes = vec![nothing(), found(), failure_one(), found()];
    assert_eq!(resolve_outcomes(outcomes), found());
}

#[test]
fn resolve_outcomes_picks_last_error() {
    let outcomes = vec![failure_two(), nothing(), failure_one()];
    assert_eq!(resolve_outcomes(outcomes), failure_one());
}

#[test]
fn resolve_outcomes_of_nothing_at_all() {
    assert_eq!(resolve_outcomes(Vec::new()), Err(ProxyError::PlatformNotSupported));
    assert_eq!(resolve_outcomes(vec![nothing()]), Ok(None));
}
