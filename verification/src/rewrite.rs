//! Rewriting one child URI of a playlist into a URL that leads back through
//! the proxy.

use crate::config::{State, StateView};
use crate::encode::{encoded_text, percent_encode_text};
use vstd::prelude::*;
use vstd::string::StringExecFns;

verus! {

#[verifier::external_type_specification]
#[verifier::external_body]
pub struct ExUrl(url::Url);

/// The serialization of a parsed URL: the text that `Url::as_str` and its
/// `Display` give.
pub uninterp spec fn url_text(url: url::Url) -> Seq<char>;

/// What `url::Url::parse` makes of a text: the serialization of the URL it
/// returns, or `None` where it returns an error.
pub uninterp spec fn parsed_url(text: Seq<char>) -> Option<Seq<char>>;

/// What `url::Url::join` makes of a reference and the base URL with the given
/// serialization: the serialization of the URL it returns, or `None` where it
/// returns an error. The crate resolves the reference as a browser would; a
/// plain relative path lands in the directory of the base, in place of the
/// last segment of its path, and the query and fragment of the base are gone.
pub uninterp spec fn joined_url(base: Seq<char>, reference: Seq<char>) -> Option<Seq<char>>;

/// Parses an absolute URL.
///
/// Calls `url::Url::parse`. The contract names the outcome: `parsed_url` of
/// the text is the serialization of the URL returned, and is `None` exactly
/// when the call fails.
#[verifier::external_body]
fn parse_url(text: &str) -> (r: Option<url::Url>)
    ensures
        match r {
            Some(url) => parsed_url(text@) == Some(url_text(url)),
            None => parsed_url(text@) is None,
        },
{
    match url::Url::parse(text) {
        Ok(url) => Some(url),
        Err(_) => None,
    }
}

/// Resolves a reference against a base URL.
///
/// Calls `url::Url::join`. A URL is determined by its serialization, so the
/// contract names the outcome over the serialization of the base:
/// `joined_url` of it and the reference is the serialization of the URL
/// returned, and is `None` exactly when the call fails.
#[verifier::external_body]
fn join_url(base: &url::Url, reference: &str) -> (r: Option<url::Url>)
    ensures
        match r {
            Some(url) => joined_url(url_text(*base), reference@) == Some(url_text(url)),
            None => joined_url(url_text(*base), reference@) is None,
        },
{
    match base.join(reference) {
        Ok(url) => Some(url),
        Err(_) => None,
    }
}

/// The serialization of a URL, through its `Display` implementation.
#[verifier::external_body]
fn url_to_string(url: &url::Url) -> (r: String)
    ensures
        r@ == url_text(*url),
{
    url.to_string()
}

/// The directory of a target: what joining the reference `.` onto the parsed
/// target gives, the target without the last segment of its path, its query
/// and its fragment. A target that does not parse as a URL, or that cannot be
/// a base, has none.
pub open spec fn directory_of(target: Seq<char>) -> Option<Seq<char>> {
    match parsed_url(target) {
        Some(base) => joined_url(base, "."@),
        None => None,
    }
}

/// The absolute URL that a child URI of the playlist at `target` stands for.
///
/// A child that parses as an absolute URL stands for that URL. Any other child
/// is relative to the target: it stands for what joining it onto the target
/// gives, and where the two do not join, for the directory of the target with
/// the child written after it. So every child has an absolute URL when the
/// target has a directory; there may be none only where the target does not
/// parse as a URL or cannot be a base.
pub open spec fn absolute_child(target: Seq<char>, child: Seq<char>) -> Option<Seq<char>> {
    match parsed_url(child) {
        Some(text) => Some(text),
        None => match parsed_url(target) {
            Some(base) => match joined_url(base, child) {
                Some(text) => Some(text),
                None => match joined_url(base, "."@) {
                    Some(directory) => Some(directory + child),
                    None => None,
                },
            },
            None => None,
        },
    }
}

/// Whatever the child is, it has an absolute URL when the target has a
/// directory.
pub proof fn lemma_directory_resolves(target: Seq<char>, child: Seq<char>)
    requires
        directory_of(target) is Some,
    ensures
        absolute_child(target, child) is Some,
{
}

/// Resolves a child URI of the playlist fetched from `target`.
pub fn resolve_child(target: &str, child: &str) -> (r: Option<String>)
    ensures
        match r {
            Some(url) => absolute_child(target@, child@) == Some(url@),
            None => absolute_child(target@, child@) is None,
        },
{
    match parse_url(child) {
        Some(url) => Some(url_to_string(&url)),
        None => match parse_url(target) {
            Some(base) => match join_url(&base, child) {
                Some(url) => Some(url_to_string(&url)),
                None => match join_url(&base, ".") {
                    Some(directory) => {
                        let mut text = url_to_string(&directory);
                        text.append(child);
                        Some(text)
                    },
                    None => None,
                },
            },
            None => None,
        },
    }
}

/// The proxy-facing URL for an absolute child URL:
/// `<scheme>://<domain>/proxy?key=<key>&url=<encoded child>`.
pub open spec fn proxied_uri(
    scheme: Seq<char>,
    domain: Seq<char>,
    key: Seq<char>,
    absolute: Seq<char>,
) -> Seq<char> {
    proxy_prefix(scheme, domain, key) + encoded_text(absolute)
}

/// What precedes the encoded child URL in a rewritten URI.
pub open spec fn proxy_prefix(scheme: Seq<char>, domain: Seq<char>, key: Seq<char>) -> Seq<
    char,
> {
    scheme + "://"@ + domain + "/proxy?key="@ + key + "&url="@
}

/// Builds the proxy-facing URL for an absolute child URL. The authority is the
/// configured public domain of the proxy.
pub fn proxy_uri(state: &State, key: &str, absolute: &str) -> (uri: String)
    ensures
        uri@ == proxied_uri(state@.scheme, state@.domain, key@, absolute@),
{
    let encoded = percent_encode_text(absolute);
    let mut uri = String::from_str(state.scheme());
    uri.append("://");
    uri.append(state.domain());
    uri.append("/proxy?key=");
    uri.append(key);
    uri.append("&url=");
    uri.append(encoded.as_str());
    uri
}

/// The rewritten form of a child URI of the playlist at `target`, where the
/// child stands for an absolute URL.
pub open spec fn rewritten_uri(
    state: StateView,
    key: Seq<char>,
    target: Seq<char>,
    child: Seq<char>,
) -> Option<Seq<char>> {
    match absolute_child(target, child) {
        Some(absolute) => Some(proxied_uri(state.scheme, state.domain, key, absolute)),
        None => None,
    }
}

/// Rewrites one child URI: resolves it against the target, percent-encodes the
/// absolute URL and puts it behind the proxy's own address and the key.
pub fn rewrite_uri(state: &State, key: &str, target: &str, child: &str) -> (r: Option<String>)
    ensures
        match r {
            Some(uri) => rewritten_uri(state@, key@, target@, child@) == Some(uri@),
            None => rewritten_uri(state@, key@, target@, child@) is None,
        },
{
    match resolve_child(target, child) {
        Some(absolute) => Some(proxy_uri(state, key, absolute.as_str())),
        None => None,
    }
}

} // verus!
