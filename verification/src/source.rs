//! The source resolver: classifies a user-supplied source string as an
//! HTTP endpoint, a TCP endpoint, a local file path, or an unresolvable
//! argument. Endpoint classification is a pure prefix test; whether the
//! string names an existing regular file is a fact about the filesystem
//! that the caller establishes and passes in as a boolean.

use vstd::prelude::*;
use crate::text::{has_prefix, starts_with_prefix, tail_from};

verus! {

/// The scheme prefix marking an HTTP endpoint.
pub open spec fn http_prefix() -> Seq<char> {
    "http://"@
}

/// The scheme prefix marking a TCP endpoint.
pub open spec fn tcp_prefix() -> Seq<char> {
    "tcp://"@
}

/// Whether `url` names an HTTP endpoint.
pub fn is_http(url: &str) -> (r: bool)
    ensures
        r == has_prefix(url@, http_prefix()),
{
    starts_with_prefix(url, "http://")
}

/// Whether `url` names a TCP endpoint.
pub fn is_tcp(url: &str) -> (r: bool)
    ensures
        r == has_prefix(url@, tcp_prefix()),
{
    starts_with_prefix(url, "tcp://")
}

/// How a source string was classified. For the endpoint forms, `addr`
/// is the string with exactly the scheme prefix stripped.
pub enum Resolution {
    Http { addr: String },
    Tcp { addr: String },
    LocalFile { path: String },
    Invalid { arg: String },
}

/// The resolver's contract: HTTP prefix wins first, then TCP, then an
/// existing file, and everything else is an invalid argument carried
/// back verbatim.
pub open spec fn resolves_to(s: &str, file_exists: bool, r: Resolution) -> bool {
    if has_prefix(s@, http_prefix()) {
        r matches Resolution::Http { addr } && addr@ == s@.skip(http_prefix().len() as int)
    } else if has_prefix(s@, tcp_prefix()) {
        r matches Resolution::Tcp { addr } && addr@ == s@.skip(tcp_prefix().len() as int)
    } else if file_exists {
        r matches Resolution::LocalFile { path } && path@ == s@
    } else {
        r matches Resolution::Invalid { arg } && arg@ == s@
    }
}

/// Classify a source string. `file_exists` states whether `s` names an
/// existing regular file; it only matters when `s` carries no scheme
/// prefix.
pub fn resolve_source(s: &str, file_exists: bool) -> (r: Resolution)
    ensures
        resolves_to(s, file_exists, r),
{
    if is_http(s) {
        let plen = "http://".unicode_len();
        Resolution::Http { addr: tail_from(s, plen) }
    } else if is_tcp(s) {
        let plen = "tcp://".unicode_len();
        Resolution::Tcp { addr: tail_from(s, plen) }
    } else if file_exists {
        Resolution::LocalFile { path: s.to_owned() }
    } else {
        Resolution::Invalid { arg: s.to_owned() }
    }
}

/// For every string beginning with the HTTP prefix, the resolver strips
/// exactly that prefix before handing the remainder to the HTTP loader,
/// regardless of what follows the prefix and of the filesystem.
pub proof fn lemma_http_strips_exact_prefix(s: &str, file_exists: bool, r: Resolution)
    requires
        has_prefix(s@, http_prefix()),
        resolves_to(s, file_exists, r),
    ensures
        r matches Resolution::Http { addr } && addr@ == s@.skip(http_prefix().len() as int),
{
}

/// For every string beginning with the TCP prefix (and not the HTTP
/// prefix), the resolver strips exactly the TCP prefix before handing
/// the remainder to the TCP loader.
pub proof fn lemma_tcp_strips_exact_prefix(s: &str, file_exists: bool, r: Resolution)
    requires
        !has_prefix(s@, http_prefix()),
        has_prefix(s@, tcp_prefix()),
        resolves_to(s, file_exists, r),
    ensures
        r matches Resolution::Tcp { addr } && addr@ == s@.skip(tcp_prefix().len() as int),
{
}

/// Every non-scheme string that names no existing file resolves to
/// `Invalid` carrying the string itself; no loader is named by the
/// result, so nothing is ever stored for it.
pub proof fn lemma_unresolvable_fails(s: &str, r: Resolution)
    requires
        !has_prefix(s@, http_prefix()),
        !has_prefix(s@, tcp_prefix()),
        resolves_to(s, false, r),
    ensures
        r matches Resolution::Invalid { arg } && arg@ == s@,
{
}

} // verus!
