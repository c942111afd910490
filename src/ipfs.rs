use vstd::prelude::*;
use crate::text::{has_min_chars, starts_with_seq, strip_prefix_of};

verus! {

/// Scheme prefix of a content-addressed URI.
pub open spec fn ipfs_prefix() -> Seq<char> {
    seq!['i', 'p', 'f', 's', ':', '/', '/']
}

/// HTTP gateway that serves content-addressed data.
pub open spec fn ipfs_gateway() -> Seq<char> {
    seq!['h', 't', 't', 'p', 's', ':', '/', '/', 'i', 'p', 'f', 's', '.', 'i', 'o', '/']
}

/// Whether `u` is a content-addressed URI.
pub open spec fn is_ipfs_spec(u: Seq<char>) -> bool {
    starts_with_seq(u, ipfs_prefix())
}

/// A content-addressed URI becomes the gateway URL followed by everything
/// after the scheme prefix; any other URI is left as it is.
pub open spec fn normalize(u: Seq<char>) -> Seq<char> {
    if is_ipfs_spec(u) {
        ipfs_gateway() + u.subrange(ipfs_prefix().len() as int, u.len() as int)
    } else {
        u
    }
}

/// Whether `url` is long enough to be normalized: at least as long as the
/// scheme prefix.
pub fn is_normalizable(url: &str) -> (r: bool)
    ensures
        r == (url@.len() >= ipfs_prefix().len()),
{
    has_min_chars(url, 7)
}

/// Whether `url` starts with the content-addressing scheme prefix.
pub fn is_ipfs(url: &str) -> (r: bool)
    ensures
        r == is_ipfs_spec(url@),
{
    proof {
        reveal_strlit("ipfs://");
        assert("ipfs://"@ =~= ipfs_prefix());
    }
    strip_prefix_of(url, "ipfs://").is_some()
}

/// Rewrites a content-addressed URI into a fetchable gateway URL and passes
/// every other URI through unchanged. A URI shorter than the scheme prefix
/// is no input here: callers reject it first.
pub fn to_ipfs(url: &str) -> (r: String)
    requires
        url@.len() >= ipfs_prefix().len(),
    ensures
        r@ == normalize(url@),
{
    proof {
        reveal_strlit("ipfs://");
        reveal_strlit("https://ipfs.io/");
        assert("ipfs://"@ =~= ipfs_prefix());
        assert("https://ipfs.io/"@ =~= ipfs_gateway());
    }
    match strip_prefix_of(url, "ipfs://") {
        Some(rest) => "https://ipfs.io/".to_owned().concat(rest),
        None => url.to_owned(),
    }
}

/// Normalizing is idempotent on every URI that is not content-addressed.
pub proof fn lemma_normalize_idempotent(u: Seq<char>)
    requires
        u.len() >= ipfs_prefix().len(),
        !is_ipfs_spec(u),
    ensures
        normalize(normalize(u)) == normalize(u),
{
}

/// The gateway URL is never itself content-addressed, so normalizing twice
/// is the same as normalizing once on every input.
pub proof fn lemma_normalize_stable(u: Seq<char>)
    ensures
        !is_ipfs_spec(normalize(u)),
        normalize(normalize(u)) == normalize(u),
{
    if is_ipfs_spec(u) {
        let n = normalize(u);
        assert(n[0] == 'h');
        assert(n.subrange(0, 7)[0] == 'h');
    }
}

} // verus!
