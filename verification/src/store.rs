//! The cache store's decisions: where an entry lives and when it is fresh
//! enough to serve. Reading and writing the entry's bytes is input/output
//! and stays with the caller; both take the entry path computed here.

use vstd::prelude::*;
use crate::key::cache_key;
use crate::key::key_of;

verus! {

/// The path of a cache entry: the root directory, a fixed `kep` subfolder,
/// and the entry's key as its file name.
pub open spec fn entry_path(root: Seq<char>, k: Seq<char>) -> Seq<char> {
    root + seq!['/', 'k', 'e', 'p', '/'] + k
}

/// Relies on dirs::cache_dir: the platform's user-level cache directory, if
/// one can be determined. The result depends on the process environment, so
/// nothing is promised of it; a non-Unicode path is treated as undiscoverable.
#[verifier::external_body]
fn platform_cache_dir() -> Option<String> {
    dirs::cache_dir().and_then(|p| p.into_os_string().into_string().ok())
}

/// Pick the cache root: the platform cache directory when one was found,
/// the fixed fallback `/tmp` otherwise.
pub fn choose_cache_root(platform: Option<String>) -> (r: String)
    ensures
        platform matches Some(p) ==> r@ == p@,
        platform is None ==> r@ == "/tmp"@,
{
    match platform {
        Some(p) => p,
        None => String::from_str("/tmp"),
    }
}

/// The cache root for this process: the platform cache directory, or `/tmp`
/// when it cannot be determined. The choice depends on the environment, so
/// no more is promised of the result.
pub fn default_cache_root() -> String {
    choose_cache_root(platform_cache_dir())
}

/// The path of the cache entry for a command's token sequence, under the
/// given cache root.
pub fn cache_file_path(root: &str, tokens: &Vec<String>) -> (r: String)
    ensures
        r@ == entry_path(root@, key_of(tokens.deep_view())),
{
    let mut p = String::from_str(root);
    proof {
        reveal_strlit("/kep/");
        assert("/kep/"@ =~= seq!['/', 'k', 'e', 'p', '/']);
    }
    p.append("/kep/");
    let k = cache_key(tokens);
    p.append(k.as_str());
    proof {
        assert(p@ =~= entry_path(root@, key_of(tokens.deep_view())));
    }
    p
}

/// Decide whether a cache entry may be served. The entry's age is given as
/// whole seconds plus leftover nanoseconds, or `None` when the entry is
/// missing or its modification time could not be read; such an entry is
/// never served, so the caller falls back to executing the command. An
/// entry is fresh exactly when its age is at most the time-to-live.
pub fn should_serve_cache(age: Option<(u64, u32)>, ttl_secs: u64) -> (r: bool)
    ensures
        r == (age matches Some(a) && (a.0 < ttl_secs || (a.0 == ttl_secs && a.1 == 0))),
{
    match age {
        Some((secs, nanos)) => secs < ttl_secs || (secs == ttl_secs && nanos == 0),
        None => false,
    }
}

} // verus!
