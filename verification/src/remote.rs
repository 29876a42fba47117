use vstd::prelude::*;
use crate::result::HookError;

verus! {

/// The host component of a remote URL, when the text is a well-formed URL
/// with one; the result depends on the URL text alone.
pub uninterp spec fn url_host(s: Seq<char>) -> Option<Seq<char>>;

/// Relies on url::Url::parse and url::Url::host_str: parses the text as a URL
/// and reads its host component; None when the text does not parse or the URL
/// has no host.
#[verifier::external_body]
fn parse_url_host(s: &str) -> (r: Option<String>)
    ensures
        r is Some <==> url_host(s@) is Some,
        r matches Some(h) ==> url_host(s@) == Some(h@),
{
    match url::Url::parse(s) {
        Ok(u) => u.host_str().map(|h| h.to_owned()),
        Err(_) => None,
    }
}

/// The host the push targets, extracted from the remote URL argument.
/// A URL without an extractable host is a hard NoRemoteHost error.
pub fn remote_host(remote_url: &str) -> (r: Result<String, HookError>)
    ensures
        r is Ok <==> url_host(remote_url@) is Some,
        r matches Ok(h) ==> url_host(remote_url@) == Some(h@),
        r is Err ==> r == Err::<String, HookError>(HookError::NoRemoteHost),
{
    match parse_url_host(remote_url) {
        Some(h) => Ok(h),
        None => Err(HookError::NoRemoteHost),
    }
}

} // verus!
