//! Decide, from a resolved proxy configuration, whether traffic to a given
//! address should bypass the proxy or be routed through one, and discover
//! that configuration from an ordered list of platform sources.

mod address;
mod config;
mod discovery;
mod text;

pub use address::UrlParts;
pub use address::effective_host;
pub use address::url_host_of;
pub use config::ProxyConfig;
pub use config::ProxyConfigView;
pub use config::assoc_map;
pub use config::host_excluded;
pub use config::lemma_empty_suffix_wildcard_inert;
pub use config::lemma_simple_host_excluded;
pub use config::lemma_whitelisted_host_excluded;
pub use config::lemma_wildcard_suffix_excludes;
pub use config::pattern_set;
pub use config::wildcard_excludes;
pub use discovery::ProxyError;
pub use discovery::ProxySource;
pub use discovery::first_found_index;
pub use discovery::get_proxy_config;
pub use discovery::get_proxy_config_from;
pub use discovery::is_failure;
pub use discovery::is_found;
pub use discovery::last_failure_index;
pub use discovery::lemma_discovery_nothing_configured;
pub use discovery::lemma_discovery_reports_last_error;
pub use discovery::lemma_discovery_short_circuit;
pub use discovery::resolve_outcomes;
pub use discovery::resolve_spec;
pub use text::ends_with;
pub use text::last_star_index;
pub use text::lower_of;
