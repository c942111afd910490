use vstd::prelude::*;
use crate::erc::Address;
use crate::ipfs::{ipfs_prefix, is_normalizable, normalize, to_ipfs};
use crate::metadata::{description_key, image_key, info_from_json, info_matches, json_field, name_key, Erc721Info};
use crate::registry::{insert_if_absent, ContractManager};

verus! {

/// Why resolving a contract's metadata failed.
#[derive(Debug)]
pub enum ResolveError {
    /// The `tokenURI` call failed or reverted; holds its description.
    ContractCall(String),
    /// The metadata document could not be fetched; holds the description.
    Fetch(String),
    /// The metadata document lacks a string `name`, `description` or `image`,
    /// or its image URI is shorter than the scheme prefix.
    Malformed,
    /// The token URI is shorter than the scheme prefix; holds the URI.
    UriTooShort(String),
}

/// The outcome of the `tokenURI(1)` probe, as strings.
pub open spec fn probe_view(t: &Result<String, String>) -> Result<Seq<char>, Seq<char>> {
    match t {
        Ok(u) => Ok(u@),
        Err(e) => Err(e@),
    }
}

/// The resolved registry after a probe: a successful probe records its URI
/// unless the address is already recorded.
pub open spec fn resolved_after(
    m: Map<Seq<u8>, Seq<char>>,
    a: Seq<u8>,
    t: Result<Seq<char>, Seq<char>>,
) -> Map<Seq<u8>, Seq<char>> {
    match t {
        Ok(u) => insert_if_absent(m, a, u),
        Err(_) => m,
    }
}

/// The failed registry after a probe: a failed probe records its error
/// description unless the address is already recorded.
pub open spec fn failed_after(
    f: Map<Seq<u8>, Seq<char>>,
    a: Seq<u8>,
    t: Result<Seq<char>, Seq<char>>,
) -> Map<Seq<u8>, Seq<char>> {
    match t {
        Ok(_) => f,
        Err(e) => insert_if_absent(f, a, e),
    }
}

/// The metadata URL to fetch after a probe: only a successful probe on an
/// address not yet resolved, with a URI at least as long as the scheme
/// prefix, leads to a fetch, of the normalized token URI.
pub open spec fn fetch_after(
    m: Map<Seq<u8>, Seq<char>>,
    a: Seq<u8>,
    t: Result<Seq<char>, Seq<char>>,
) -> Option<Seq<char>> {
    match t {
        Ok(u) => if m.contains_key(a) || u.len() < ipfs_prefix().len() {
            None
        } else {
            Some(normalize(u))
        },
        Err(_) => None,
    }
}

/// Records the outcome of the `tokenURI(1)` probe of the contract at `addr`
/// and decides what follows: `Ok(Some(url))` to fetch the metadata at `url`,
/// `Ok(None)` when the contract was resolved before (nothing more to do),
/// the probe's error, which is also recorded in `failed`, or, once recorded,
/// a token URI too short to normalize.
pub fn resolve_contract(
    addr: &Address,
    token_uri: Result<String, String>,
    resolved: &mut ContractManager,
    failed: &mut ContractManager,
) -> (r: Result<Option<String>, ResolveError>)
    requires
        old(resolved).wf(),
        old(failed).wf(),
    ensures
        final(resolved).wf(),
        final(failed).wf(),
        final(resolved).path() == old(resolved).path(),
        final(failed).path() == old(failed).path(),
        final(resolved).view() == resolved_after(old(resolved).view(), addr.view(), probe_view(&token_uri)),
        final(failed).view() == failed_after(old(failed).view(), addr.view(), probe_view(&token_uri)),
        token_uri is Ok ==> (r is Ok <==> (old(resolved).view().contains_key(addr.view())
            || token_uri->Ok_0@.len() >= ipfs_prefix().len())),
        r is Err && token_uri is Ok ==> r->Err_0 is UriTooShort && r->Err_0->UriTooShort_0@ == token_uri->Ok_0@,
        r is Ok ==> match fetch_after(old(resolved).view(), addr.view(), probe_view(&token_uri)) {
            Some(url) => r->Ok_0 is Some && r->Ok_0->0@ == url,
            None => r->Ok_0 is None,
        },
        token_uri is Err ==> r is Err && r->Err_0 is ContractCall
            && r->Err_0->ContractCall_0@ == token_uri->Err_0@,
{
    match token_uri {
        Ok(uri) => {
            if !resolved.add(addr, uri.as_str()) {
                Ok(None)
            } else if is_normalizable(uri.as_str()) {
                Ok(Some(to_ipfs(uri.as_str())))
            } else {
                Err(ResolveError::UriTooShort(uri))
            }
        },
        Err(e) => {
            failed.add(addr, e.as_str());
            Err(ResolveError::ContractCall(e))
        },
    }
}

/// Turns the fetched metadata document of a token into its resolved
/// metadata; `fetched` is the document's text, or why it could not be had.
/// A token URI shorter than the scheme prefix is rejected first.
pub fn finish_resolve(token_uri: &str, fetched: Result<String, String>) -> (r: Result<
    Erc721Info,
    ResolveError,
>)
    ensures
        token_uri@.len() < ipfs_prefix().len() ==> r is Err && r->Err_0 is UriTooShort
            && r->Err_0->UriTooShort_0@ == token_uri@,
        token_uri@.len() >= ipfs_prefix().len() && fetched is Err ==> r is Err && r->Err_0 is Fetch
            && r->Err_0->Fetch_0@ == fetched->Err_0@,
        token_uri@.len() >= ipfs_prefix().len() && fetched is Ok ==> {
            let body = fetched->Ok_0@;
            let name = json_field(body, name_key());
            let description = json_field(body, description_key());
            let image = json_field(body, image_key());
            &&& (r is Ok <==> (name is Some && description is Some && image is Some
                && image->0.len() >= ipfs_prefix().len()))
            &&& (r is Err ==> r->Err_0 is Malformed)
            &&& (r is Ok ==> info_matches(&r->Ok_0, name->0, description->0, image->0, token_uri@))
        },
{
    if !is_normalizable(token_uri) {
        return Err(ResolveError::UriTooShort(token_uri.to_owned()));
    }
    match fetched {
        Err(e) => Err(ResolveError::Fetch(e)),
        Ok(body) => match info_from_json(body.as_str(), token_uri) {
            Some(info) => Ok(info),
            None => Err(ResolveError::Malformed),
        },
    }
}

/// Once a probe of `a` has succeeded against a resolved registry, any later
/// probe of `a` against the registry it left leads to no fetch and leaves
/// that registry as it is: the metadata of an address is fetched at most once.
pub proof fn lemma_second_resolve_skips(
    m: Map<Seq<u8>, Seq<char>>,
    a: Seq<u8>,
    first: Result<Seq<char>, Seq<char>>,
    second: Result<Seq<char>, Seq<char>>,
)
    requires
        first is Ok,
    ensures
        resolved_after(m, a, first).contains_key(a),
        fetch_after(resolved_after(m, a, first), a, second) is None,
        resolved_after(resolved_after(m, a, first), a, second) == resolved_after(m, a, first),
{
}

/// A failed probe leaves its address in the failed registry, and the failed
/// registry is no gate: a later probe is decided by its own outcome alone, so
/// a second failure is again an error that leads to no fetch.
pub proof fn lemma_failed_probe_recorded(
    m: Map<Seq<u8>, Seq<char>>,
    f: Map<Seq<u8>, Seq<char>>,
    a: Seq<u8>,
    first: Seq<char>,
    second: Result<Seq<char>, Seq<char>>,
)
    ensures
        failed_after(f, a, Err(first)).contains_key(a),
        resolved_after(m, a, Err(first)) == m,
        fetch_after(m, a, Err(first)) is None,
        fetch_after(m, a, second) == fetch_after(resolved_after(m, a, Err(first)), a, second),
        failed_after(failed_after(f, a, Err(first)), a, second).contains_key(a),
{
}

} // verus!
