//! Extraction of the host component from an address string, and the pieces
//! of a parsed URL that proxy selection reads.

use vstd::prelude::*;
use crate::text::lower_of;

verus! {

/// The host component that URL parsing extracts from `address`: `Some` when
/// `address` is a well-formed absolute URL with a host, `None` otherwise.
pub uninterp spec fn url_host_of(address: Seq<char>) -> Option<Seq<char>>;

/// Relies on `url::Url::parse` and `url::Url::host`: whether a string parses
/// as an absolute URL with a host, and that host's serialized form, are
/// functions of the string's characters alone.
#[verifier::external_body]
pub(crate) fn url_host(address: &str) -> (r: Option<String>)
    ensures
        match r {
            Some(h) => url_host_of(address@) == Some(h@),
            None => url_host_of(address@) is None,
        },
{
    match url::Url::parse(address) {
        Ok(u) => match u.host() {
            Some(h) => Some(h.to_string()),
            None => None,
        },
        Err(_) => None,
    }
}

/// The host that exclusion rules are checked against: the host of `address`
/// when it parses as a URL with one, else the whole address string; in
/// either case lowercased.
pub open spec fn effective_host(address: Seq<char>) -> Seq<char> {
    match url_host_of(address) {
        Some(h) => lower_of(h),
        None => lower_of(address),
    }
}

/// The two components of a URL that proxy selection reads: its full string
/// form and its scheme. An application parses its URLs with whatever URL
/// library it uses and hands these over.
pub struct UrlParts {
    pub text: String,
    pub scheme: String,
}

} // verus!
