//! Reading the host out of an endpoint URL, through the `url` crate.

use vstd::prelude::*;

verus! {

#[verifier::external_type_specification]
#[verifier::external_body]
pub struct ExUrlParseError(url::ParseError);

/// The host of the absolute URL that `endpoint` spells: `None` where
/// `endpoint` is no absolute URL, `Some(None)` where the URL has no host.
pub uninterp spec fn url_host(endpoint: Seq<char>) -> Option<Option<Seq<char>>>;

/// Calls `Url::parse` and then `Url::host_str`. Trusted: the call fails
/// exactly where `url_host` is `None`, and otherwise returns the host that
/// `url_host` names.
#[verifier::external_body]
pub(crate) fn endpoint_host(endpoint: &str) -> (host: Result<Option<String>, url::ParseError>)
    ensures
        match host {
            Ok(Some(h)) => url_host(endpoint@) == Some(Some(h@)),
            Ok(None) => url_host(endpoint@) == Some(None::<Seq<char>>),
            Err(_) => url_host(endpoint@) is None,
        },
{
    url::Url::parse(endpoint).map(|u| u.host_str().map(|h| h.to_owned()))
}

/// The message of a `url::ParseError`, as its `Display` prints it. Nothing
/// is claimed about the text.
#[verifier::external_body]
pub(crate) fn url_error_text(error: &url::ParseError) -> String {
    error.to_string()
}

} // verus!
