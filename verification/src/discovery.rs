//! Discovery of the proxy configuration: an ordered list of sources is
//! queried in priority order; the first configuration found wins, errors are
//! remembered, and the last error is reported only when nothing was found.

use vstd::prelude::*;
use crate::config::ProxyConfig;

verus! {

/// Why discovery failed.
#[derive(Debug, Clone, PartialEq, Eq)]
pub enum ProxyError {
    /// No source applies on the running platform.
    PlatformNotSupported,
    /// A source failed; its own account of the failure is kept verbatim.
    Source(String),
}

/// One platform mechanism that may yield a proxy configuration: environment
/// variables, a system configuration file, an OS settings store. Implemented
/// by the embedding application; `Ok(None)` means the mechanism is present
/// but nothing is configured.
pub trait ProxySource {
    fn query(&self) -> Result<Option<ProxyConfig>, ProxyError>;
}

/// The outcome yielded a configuration.
pub open spec fn is_found(o: Result<Option<ProxyConfig>, ProxyError>) -> bool {
    o matches Ok(Some(_))
}

/// The outcome was an error.
pub open spec fn is_failure(o: Result<Option<ProxyConfig>, ProxyError>) -> bool {
    o is Err
}

/// Index of the first outcome that yielded a configuration, or `-1`.
pub open spec fn first_found_index(outs: Seq<Result<Option<ProxyConfig>, ProxyError>>) -> int
    decreases outs.len(),
{
    if outs.len() == 0 {
        -1
    } else if is_found(outs[0]) {
        0
    } else if first_found_index(outs.drop_first()) >= 0 {
        first_found_index(outs.drop_first()) + 1
    } else {
        -1
    }
}

/// Index of the last outcome that was an error, or `-1`.
pub open spec fn last_failure_index(outs: Seq<Result<Option<ProxyConfig>, ProxyError>>) -> int
    decreases outs.len(),
{
    if outs.len() == 0 {
        -1
    } else if is_failure(outs.last()) {
        outs.len() - 1
    } else {
        last_failure_index(outs.drop_last())
    }
}

/// What an ordered list of source outcomes resolves to: the first
/// configuration found; else the last error, if any source failed; else
/// "nothing configured"; an empty list means the platform is unsupported.
pub open spec fn resolve_spec(
    outs: Seq<Result<Option<ProxyConfig>, ProxyError>>,
) -> Result<Option<ProxyConfig>, ProxyError> {
    if outs.len() == 0 {
        Err(ProxyError::PlatformNotSupported)
    } else if first_found_index(outs) >= 0 {
        outs[first_found_index(outs)]
    } else if last_failure_index(outs) >= 0 {
        outs[last_failure_index(outs)]
    } else {
        Ok(None)
    }
}

pub proof fn lemma_first_found_index_at(
    outs: Seq<Result<Option<ProxyConfig>, ProxyError>>,
    i: int,
)
    requires
        0 <= i < outs.len(),
        is_found(outs[i]),
        forall|j: int| 0 <= j < i ==> !is_found(outs[j]),
    ensures
        first_found_index(outs) == i,
    decreases outs.len(),
{
    if i > 0 {
        lemma_first_found_index_at(outs.drop_first(), i - 1);
    }
}

pub proof fn lemma_first_found_index_none(outs: Seq<Result<Option<ProxyConfig>, ProxyError>>)
    requires
        forall|j: int| 0 <= j < outs.len() ==> !is_found(outs[j]),
    ensures
        first_found_index(outs) == -1,
    decreases outs.len(),
{
    if outs.len() > 0 {
        lemma_first_found_index_none(outs.drop_first());
    }
}

pub proof fn lemma_last_failure_index_at(
    outs: Seq<Result<Option<ProxyConfig>, ProxyError>>,
    i: int,
)
    requires
        0 <= i < outs.len(),
        is_failure(outs[i]),
        forall|j: int| i < j < outs.len() ==> !is_failure(outs[j]),
    ensures
        last_failure_index(outs) == i,
    decreases outs.len(),
{
    if i < outs.len() - 1 {
        lemma_last_failure_index_at(outs.drop_last(), i);
    }
}

pub proof fn lemma_last_failure_index_none(outs: Seq<Result<Option<ProxyConfig>, ProxyError>>)
    requires
        forall|j: int| 0 <= j < outs.len() ==> !is_failure(outs[j]),
    ensures
        last_failure_index(outs) == -1,
    decreases outs.len(),
{
    if outs.len() > 0 {
        lemma_last_failure_index_none(outs.drop_last());
    }
}

/// Resolve an already-collected, ordered list of source outcomes to the
/// single discovery result.
pub fn resolve_outcomes(
    outcomes: Vec<Result<Option<ProxyConfig>, ProxyError>>,
) -> (r: Result<Option<ProxyConfig>, ProxyError>)
    ensures
        r == resolve_spec(outcomes@),
{
    let mut pending = outcomes;
    let n: usize = pending.len();
    if n == 0 {
        return Err(ProxyError::PlatformNotSupported);
    }
    let mut found_at: Option<usize> = None;
    let mut failed_at: Option<usize> = None;
    let mut i: usize = 0;
    while i < n
        invariant
            pending@ == outcomes@,
            n == pending@.len(),
            0 <= i <= n,
            found_at is None,
            forall|j: int| 0 <= j < i ==> !is_found(pending@[j]),
            match failed_at {
                Some(k) => k < i && is_failure(pending@[k as int])
                    && forall|j: int| k < j < i ==> !is_failure(pending@[j]),
                None => forall|j: int| 0 <= j < i ==> !is_failure(pending@[j]),
            },
        decreases n - i,
    {
        match &pending[i] {
            Ok(Some(_)) => {
                found_at = Some(i);
            },
            Ok(None) => {},
            Err(_) => {
                failed_at = Some(i);
            },
        }
        if found_at.is_some() {
            proof {
                lemma_first_found_index_at(pending@, i as int);
            }
            return pending.remove(i);
        }
        i = i + 1;
    }
    proof {
        lemma_first_found_index_none(pending@);
    }
    match failed_at {
        Some(k) => {
            proof {
                lemma_last_failure_index_at(pending@, k as int);
            }
            pending.remove(k)
        },
        None => {
            proof {
                lemma_last_failure_index_none(pending@);
            }
            Ok(None)
        },
    }
}

/// Query `sources` in priority order and resolve what they yield. The loop
/// stops at the first source that yields a configuration; later sources are
/// not consulted. With no sources at all, the platform is unsupported.
pub fn get_proxy_config_from<S: ProxySource>(sources: &Vec<S>) -> (r: Result<
    Option<ProxyConfig>,
    ProxyError,
>)
    ensures
        sources@.len() == 0 ==> (r matches Err(e) && e is PlatformNotSupported),
{
    let mut outcomes: Vec<Result<Option<ProxyConfig>, ProxyError>> = Vec::new();
    let n: usize = sources.len();
    let mut i: usize = 0;
    while i < n
        invariant
            n == sources@.len(),
            0 <= i <= n,
            sources@.len() == 0 ==> outcomes@.len() == 0,
        decreases n - i,
    {
        let outcome = sources[i].query();
        let stop = matches!(outcome, Ok(Some(_)));
        outcomes.push(outcome);
        if stop {
            break;
        }
        i = i + 1;
    }
    proof {
        if sources@.len() == 0 {
            assert(outcomes@.len() == 0);
        }
    }
    resolve_outcomes(outcomes)
}

/// Discover the proxy configuration from the sources built into the library.
/// The verified core compiles in no platform source of its own — reading the
/// process environment or an OS settings store is left to the embedding
/// application, which hands its sources to `get_proxy_config_from` — so its
/// own source list is empty and discovery reports the platform unsupported.
pub fn get_proxy_config() -> (r: Result<Option<ProxyConfig>, ProxyError>)
    ensures
        r matches Err(e) && e is PlatformNotSupported,
{
    let outcomes: Vec<Result<Option<ProxyConfig>, ProxyError>> = Vec::new();
    resolve_outcomes(outcomes)
}

/// Law: discovery short-circuits. Once some source has yielded a
/// configuration, the outcomes of the sources after it do not affect the
/// result: the whole list resolves exactly as the prefix that ends at the
/// first find does, to that very outcome.
pub proof fn lemma_discovery_short_circuit(
    outs: Seq<Result<Option<ProxyConfig>, ProxyError>>,
    i: int,
)
    requires
        0 <= i < outs.len(),
        is_found(outs[i]),
        forall|j: int| 0 <= j < i ==> !is_found(outs[j]),
    ensures
        resolve_spec(outs) == outs[i],
        resolve_spec(outs.take(i + 1)) == outs[i],
{
    lemma_first_found_index_at(outs, i);
    lemma_first_found_index_at(outs.take(i + 1), i);
}

/// Law: when every source yielded nothing or an error, and at least one
/// erred, discovery reports the last error seen.
pub proof fn lemma_discovery_reports_last_error(
    outs: Seq<Result<Option<ProxyConfig>, ProxyError>>,
    i: int,
)
    requires
        forall|j: int| 0 <= j < outs.len() ==> !is_found(outs[j]),
        0 <= i < outs.len(),
        is_failure(outs[i]),
        forall|j: int| i < j < outs.len() ==> !is_failure(outs[j]),
    ensures
        resolve_spec(outs) == outs[i],
{
    lemma_first_found_index_none(outs);
    lemma_last_failure_index_at(outs, i);
}

/// Law: when every source yielded nothing and none erred, discovery reports
/// "nothing configured" — a successful empty result, distinct from an error.
pub proof fn lemma_discovery_nothing_configured(
    outs: Seq<Result<Option<ProxyConfig>, ProxyError>>,
)
    requires
        outs.len() > 0,
        forall|j: int| 0 <= j < outs.len() ==> !is_found(outs[j]),
        forall|j: int| 0 <= j < outs.len() ==> !is_failure(outs[j]),
    ensures
        resolve_spec(outs) == Ok::<Option<ProxyConfig>, ProxyError>(None),
{
    lemma_first_found_index_none(outs);
    lemma_last_failure_index_none(outs);
}

} // verus!
