//! The resolved proxy configuration and the decision engine: whether a host
//! bypasses the proxy, and which proxy endpoint applies to a URL.
//!
//! Whitelist wildcards are suffix patterns only: a marker character followed
//! by a literal suffix. Matching of IP ranges or subnets is a non-goal.

use vstd::prelude::*;
use vstd::string::StrSliceExecFns;
use crate::address::{UrlParts, effective_host, url_host};
use crate::text::{
    contains_char, ends_with, last_star_index, lemma_last_star_index_at,
    lemma_last_star_index_bounds, lower_of, lowercase, rfind_star, str_ends_with,
};

verus! {

/// Mathematical content of a `ProxyConfig`: the scheme-to-endpoint map, the
/// set of whitelist patterns, and the simple-hostname flag.
pub struct ProxyConfigView {
    pub proxies: Map<Seq<char>, Seq<char>>,
    pub whitelist: Set<Seq<char>>,
    pub exclude_simple: bool,
}

/// The map that an association list denotes: a later entry for the same key
/// supersedes an earlier one.
pub open spec fn assoc_map(entries: Seq<(String, String)>) -> Map<Seq<char>, Seq<char>>
    decreases entries.len(),
{
    if entries.len() == 0 {
        Map::empty()
    } else {
        assoc_map(entries.drop_last()).insert(entries.last().0@, entries.last().1@)
    }
}

/// The set of character sequences held by a list of patterns.
pub open spec fn pattern_set(patterns: Seq<String>) -> Set<Seq<char>> {
    Set::new(|p: Seq<char>| exists|i: int| 0 <= i < patterns.len() && patterns[i]@ == p)
}

/// A whitelist pattern excludes `host` through its wildcard when it holds a
/// `'*'` and the text after the last `'*'` is a non-empty suffix of `host`.
pub open spec fn wildcard_excludes(pattern: Seq<char>, host: Seq<char>) -> bool {
    &&& last_star_index(pattern) >= 0
    &&& pattern.subrange(last_star_index(pattern) + 1, pattern.len() as int).len() > 0
    &&& ends_with(host, pattern.subrange(last_star_index(pattern) + 1, pattern.len() as int))
}

/// A (lowercased) host bypasses the proxy: it is a simple hostname and those
/// are excluded, or it equals a whitelist entry, or a wildcard entry matches.
pub open spec fn host_excluded(cfg: ProxyConfigView, host: Seq<char>) -> bool {
    ||| cfg.exclude_simple && !host.contains('.')
    ||| cfg.whitelist.contains(host)
    ||| exists|p: Seq<char>| cfg.whitelist.contains(p) && wildcard_excludes(p, host)
}

/// The resolved proxy configuration: per-scheme proxy endpoints, host
/// patterns that bypass the proxy, and whether unqualified hostnames do.
#[derive(Debug, Clone, PartialEq, Eq)]
pub struct ProxyConfig {
    proxies: Vec<(String, String)>,
    whitelist: Vec<String>,
    exclude_simple: bool,
}

impl View for ProxyConfig {
    type V = ProxyConfigView;

    closed spec fn view(&self) -> ProxyConfigView {
        ProxyConfigView {
            proxies: assoc_map(self.proxies@),
            whitelist: pattern_set(self.whitelist@),
            exclude_simple: self.exclude_simple,
        }
    }
}

impl Default for ProxyConfig {
    /// The empty configuration: no proxies, no whitelist, nothing excluded.
    fn default() -> (r: Self)
        ensures
            r@.proxies == Map::<Seq<char>, Seq<char>>::empty(),
            r@.whitelist == Set::<Seq<char>>::empty(),
            !r@.exclude_simple,
    {
        let r = ProxyConfig { proxies: Vec::new(), whitelist: Vec::new(), exclude_simple: false };
        proof {
            assert(r@.whitelist =~= Set::<Seq<char>>::empty());
        }
        r
    }
}

impl ProxyConfig {
    /// Record the proxy endpoint for a scheme, superseding any earlier entry.
    pub fn add_proxy(&mut self, scheme: String, endpoint: String)
        ensures
            final(self)@.proxies == old(self)@.proxies.insert(scheme@, endpoint@),
            final(self)@.whitelist == old(self)@.whitelist,
            final(self)@.exclude_simple == old(self)@.exclude_simple,
    {
        let ghost before = self.proxies@;
        self.proxies.push((scheme, endpoint));
        proof {
            assert(self.proxies@.drop_last() =~= before);
        }
    }

    /// Add a host pattern to the whitelist.
    pub fn add_whitelist_entry(&mut self, pattern: String)
        ensures
            final(self)@.whitelist == old(self)@.whitelist.insert(pattern@),
            final(self)@.proxies == old(self)@.proxies,
            final(self)@.exclude_simple == old(self)@.exclude_simple,
    {
        let ghost before = self.whitelist@;
        let ghost p: String = pattern;
        self.whitelist.push(pattern);
        proof {
            assert forall|x: Seq<char>|
                pattern_set(before.push(p)).contains(x)
                    == pattern_set(before).insert(p@).contains(x) by {
                if pattern_set(before.push(p)).contains(x) {
                    let i = choose|i: int|
                        0 <= i < before.push(p).len() && before.push(p)[i]@ == x;
                    if i < before.len() {
                        assert(before[i]@ == x);
                    }
                }
                if pattern_set(before).contains(x) {
                    let i = choose|i: int| 0 <= i < before.len() && before[i]@ == x;
                    assert(before.push(p)[i]@ == x);
                }
                if x == p@ {
                    assert(before.push(p)[before.len() as int]@ == x);
                }
            }
            assert(pattern_set(before.push(p)) =~= pattern_set(before).insert(p@));
        }
    }

    /// Choose whether hosts without a dot bypass the proxy.
    pub fn set_exclude_simple(&mut self, exclude: bool)
        ensures
            final(self)@.exclude_simple == exclude,
            final(self)@.proxies == old(self)@.proxies,
            final(self)@.whitelist == old(self)@.whitelist,
    {
        self.exclude_simple = exclude;
    }

    /// Whether hosts without a dot bypass the proxy.
    pub fn excludes_simple_hostnames(&self) -> (r: bool)
        ensures
            r == self@.exclude_simple,
    {
        self.exclude_simple
    }

    /// The recorded scheme-to-endpoint entries, in insertion order.
    pub fn proxy_entries(&self) -> (r: &Vec<(String, String)>)
        ensures
            assoc_map(r@) == self@.proxies,
    {
        &self.proxies
    }

    /// The recorded whitelist patterns, in insertion order.
    pub fn whitelist_entries(&self) -> (r: &Vec<String>)
        ensures
            pattern_set(r@) == self@.whitelist,
    {
        &self.whitelist
    }

    /// Whether traffic to `address` should go through the proxy. The address
    /// is reduced to a lowercased host (the URL's host when it parses as
    /// one, else the whole string) and checked against the bypass rules.
    pub fn use_proxy_for_address(&self, address: &str) -> (r: bool)
        ensures
            r == !host_excluded(self@, effective_host(address@)),
    {
        let host: String = match url_host(address) {
            Some(h) => lowercase(h.as_str()),
            None => lowercase(address),
        };
        assert(host@ == effective_host(address@));

        if self.exclude_simple && !contains_char(host.as_str(), '.') {
            return false;
        }

        if whitelist_contains(&self.whitelist, &host) {
            return false;
        }

        if whitelist_wildcard_matches(&self.whitelist, &host) {
            return false;
        }

        true
    }

    /// The proxy endpoint for `url`: the configured endpoint for its scheme,
    /// lowercased, when the proxy applies to it; absent when the address
    /// bypasses the proxy or no endpoint is configured for the scheme.
    pub fn get_proxy_for_url(&self, url: &UrlParts) -> (r: Option<String>)
        ensures
            match r {
                Some(p) => !host_excluded(self@, effective_host(url.text@))
                    && self@.proxies.contains_key(url.scheme@)
                    && p@ == lower_of(self@.proxies[url.scheme@]),
                None => host_excluded(self@, effective_host(url.text@))
                    || !self@.proxies.contains_key(url.scheme@),
            },
    {
        if self.use_proxy_for_address(url.text.as_str()) {
            match lookup_assoc(&self.proxies, &url.scheme) {
                Some(v) => Some(lowercase(v.as_str())),
                None => None,
            }
        } else {
            None
        }
    }
}

/// Whether `host` is one of the patterns.
fn whitelist_contains(patterns: &Vec<String>, host: &String) -> (r: bool)
    ensures
        r == pattern_set(patterns@).contains(host@),
{
    let n: usize = patterns.len();
    let mut i: usize = 0;
    while i < n
        invariant
            n == patterns@.len(),
            0 <= i <= n,
            forall|j: int| 0 <= j < i ==> patterns@[j]@ != host@,
        decreases n - i,
    {
        if patterns[i].eq(host) {
            return true;
        }
        i = i + 1;
    }
    false
}

/// Whether the text after the last `'*'` of `pattern` is a non-empty suffix
/// of `host`.
fn pattern_wildcard_matches(pattern: &String, host: &String) -> (r: bool)
    ensures
        r == wildcard_excludes(pattern@, host@),
{
    match rfind_star(pattern.as_str()) {
        Some(pos) => {
            let len: usize = pattern.as_str().unicode_len();
            proof {
                lemma_last_star_index_bounds(pattern@);
            }
            let suffix: &str = pattern.as_str().substring_char(pos + 1, len);
            if suffix.unicode_len() > 0 {
                str_ends_with(host.as_str(), suffix)
            } else {
                false
            }
        },
        None => false,
    }
}

/// Whether any pattern's wildcard matches `host`.
fn whitelist_wildcard_matches(patterns: &Vec<String>, host: &String) -> (r: bool)
    ensures
        r == exists|p: Seq<char>|
            pattern_set(patterns@).contains(p) && wildcard_excludes(p, host@),
{
    let n: usize = patterns.len();
    let mut i: usize = 0;
    while i < n
        invariant
            n == patterns@.len(),
            0 <= i <= n,
            forall|j: int| 0 <= j < i ==> !wildcard_excludes(patterns@[j]@, host@),
        decreases n - i,
    {
        if pattern_wildcard_matches(&patterns[i], host) {
            assert(pattern_set(patterns@).contains(patterns@[i as int]@));
            return true;
        }
        i = i + 1;
    }
    proof {
        assert forall|p: Seq<char>|
            pattern_set(patterns@).contains(p) implies !wildcard_excludes(p, host@) by {
            let j = choose|j: int| 0 <= j < patterns@.len() && patterns@[j]@ == p;
            assert(!wildcard_excludes(patterns@[j]@, host@));
        }
    }
    false
}

/// The value of the last entry whose key is `key`, if any.
fn lookup_assoc<'a>(entries: &'a Vec<(String, String)>, key: &String) -> (r: Option<&'a String>)
    ensures
        match r {
            Some(v) => assoc_map(entries@).contains_key(key@)
                && v@ == assoc_map(entries@)[key@],
            None => !assoc_map(entries@).contains_key(key@),
        },
{
    let n: usize = entries.len();
    let mut best: Option<usize> = None;
    let mut i: usize = 0;
    while i < n
        invariant
            n == entries@.len(),
            0 <= i <= n,
            match best {
                Some(b) => b < i && assoc_map(entries@.take(i as int)).contains_key(key@)
                    && entries@[b as int].0@ == key@
                    && entries@[b as int].1@ == assoc_map(entries@.take(i as int))[key@],
                None => !assoc_map(entries@.take(i as int)).contains_key(key@),
            },
        decreases n - i,
    {
        proof {
            assert(entries@.take(i + 1).drop_last() =~= entries@.take(i as int));
            assert(entries@.take(i + 1).last() == entries@[i as int]);
        }
        if entries[i].0.eq(key) {
            best = Some(i);
        }
        i = i + 1;
    }
    proof {
        assert(entries@.take(n as int) =~= entries@);
    }
    match best {
        Some(b) => Some(&entries[b].1),
        None => None,
    }
}

/// Law: with `exclude_simple` set, a host without a dot bypasses the proxy,
/// whatever the whitelist holds.
pub proof fn lemma_simple_host_excluded(cfg: ProxyConfigView, host: Seq<char>)
    requires
        cfg.exclude_simple,
        !host.contains('.'),
    ensures
        host_excluded(cfg, host),
{
}

/// Law: a host equal to a whitelist entry bypasses the proxy.
pub proof fn lemma_whitelisted_host_excluded(cfg: ProxyConfigView, host: Seq<char>)
    requires
        cfg.whitelist.contains(host),
    ensures
        host_excluded(cfg, host),
{
}

/// Law: a whitelist entry `'*'` followed by a non-empty suffix excludes
/// every host that ends with that suffix.
pub proof fn lemma_wildcard_suffix_excludes(cfg: ProxyConfigView, host: Seq<char>, suffix: Seq<char>)
    requires
        cfg.whitelist.contains(seq!['*'] + suffix),
        !suffix.contains('*'),
        suffix.len() > 0,
        ends_with(host, suffix),
    ensures
        host_excluded(cfg, host),
{
    let pattern = seq!['*'] + suffix;
    assert(pattern[0] == '*');
    assert forall|j: int| 0 < j < pattern.len() implies pattern[j] != '*' by {
        assert(pattern[j] == suffix[j - 1]);
        assert(!suffix.contains('*'));
    }
    lemma_last_star_index_at(pattern, 0);
    assert(pattern.subrange(1, pattern.len() as int) =~= suffix);
    assert(wildcard_excludes(pattern, host));
}

/// Law: a whitelist entry whose last `'*'` stands at its end (an empty
/// suffix) never excludes any host through the wildcard rule.
pub proof fn lemma_empty_suffix_wildcard_inert(pattern: Seq<char>, host: Seq<char>)
    requires
        last_star_index(pattern) == pattern.len() - 1,
    ensures
        !wildcard_excludes(pattern, host),
{
}

} // verus!
