//! The request pipeline: validation, the address guard, the upstream fetch
//! and the rewriting of what was fetched.
//!
//! Resolving a name and fetching a URL are done by the caller. The pipeline is
//! therefore a sequence of steps: each takes what the caller learned and says
//! what to do next, until a step ends in a response.

use crate::address::{any_forbidden, has_forbidden, IpAddress};
use crate::config::{State, StateView};
use crate::encode::{encoded_text, percent_decode};
use crate::playlist::{
    all_resolvable, holds_in_order, lemma_rewritten_entries, parsed_playlist, rewrite_body,
    rewritten_uris, Rewrite,
};
use crate::response::{
    binary_response, failure_response, playlist_response, Failure, Response, ResponseView,
};
use crate::rewrite::{absolute_child, proxy_prefix};
use crate::target::{
    lookup_text, parsed_uri, scheme_named, validate_target, validated_target, Scheme, Target,
    TargetView,
};
use vstd::prelude::*;
use vstd::string::StringExecFns;
use vstd::utf8::*;

verus! {

/// The longest upstream body that the proxy accepts, in bytes.
pub const HTTP_BODY_MAX_LENGTH: usize = 50000000;

/// The time allowed for connecting to the upstream, in seconds.
pub const HTTP_CONNECTION_TIMEOUT: u64 = 5;

/// The time allowed for the whole upstream request, in seconds.
pub const HTTP_TIMEOUT: u64 = 10;

/// The number of redirects that the upstream request follows at most.
pub const HTTP_MAX_REDIRECTS: usize = 1;

/// The query parameters of a request to the proxy. A parameter that the
/// client left out is the empty text.
#[derive(Clone, Debug, PartialEq, Eq)]
pub struct ProxyRequest {
    pub url: String,
    pub key: String,
}

/// How the upstream request is to be made, as mathematical values.
pub struct FetchPolicyView {
    pub connect_timeout: u64,
    pub timeout: u64,
    pub max_redirects: usize,
    pub referer: bool,
    pub https_only: bool,
    pub user_agent: Seq<char>,
    pub proxy: Option<Seq<char>>,
}

/// How the upstream request is to be made.
#[derive(Clone, Debug, PartialEq, Eq)]
pub struct FetchPolicy {
    /// Seconds allowed for connecting.
    pub connect_timeout: u64,
    /// Seconds allowed for the whole request.
    pub timeout: u64,
    /// Redirects followed at most.
    pub max_redirects: usize,
    /// Whether a `referer` header is sent on a redirect.
    pub referer: bool,
    /// Whether only `https` URLs may be contacted. It holds for an `https`
    /// target; an `http` target, which validation admits, is fetched in plain
    /// text.
    pub https_only: bool,
    /// The `user-agent` header.
    pub user_agent: String,
    /// The forwarding proxy through which the request goes, if any.
    pub proxy: Option<String>,
}

impl View for FetchPolicy {
    type V = FetchPolicyView;

    open spec fn view(&self) -> FetchPolicyView {
        FetchPolicyView {
            connect_timeout: self.connect_timeout,
            timeout: self.timeout,
            max_redirects: self.max_redirects,
            referer: self.referer,
            https_only: self.https_only,
            user_agent: self.user_agent@,
            proxy: match self.proxy {
                Some(p) => Some(p@),
                None => None,
            },
        }
    }
}

/// The policy for fetching a target of the given scheme through the
/// configured forwarding proxy: short timeouts, one redirect at most, no
/// referrer, a fixed user agent.
pub open spec fn fetch_policy(scheme: Scheme, proxy: Option<Seq<char>>) -> FetchPolicyView {
    FetchPolicyView {
        connect_timeout: HTTP_CONNECTION_TIMEOUT,
        timeout: HTTP_TIMEOUT,
        max_redirects: HTTP_MAX_REDIRECTS,
        referer: false,
        https_only: scheme == Scheme::Https,
        user_agent: "muuuxy/1.0"@,
        proxy,
    }
}

/// What the upstream answered, as mathematical values.
pub struct UpstreamView {
    pub status: u16,
    pub content_type: Option<Seq<u8>>,
    pub body: Seq<u8>,
}

/// What the upstream answered: its status, the value of its `content-type`
/// header if it sent one, and the whole body.
#[derive(Clone, Debug, PartialEq, Eq)]
pub struct Upstream {
    pub status: u16,
    pub content_type: Option<Vec<u8>>,
    pub body: Vec<u8>,
}

impl View for Upstream {
    type V = UpstreamView;

    open spec fn view(&self) -> UpstreamView {
        UpstreamView {
            status: self.status,
            content_type: match self.content_type {
                Some(value) => Some(value@),
                None => None,
            },
            body: self.body@,
        }
    }
}

/// A request that passed validation and waits for its host to be resolved,
/// as mathematical values.
pub struct LookupView {
    pub url: Seq<char>,
    pub key: Seq<char>,
    pub target: TargetView,
}

/// A request that passed validation and waits for its host to be resolved.
pub struct Lookup {
    url: String,
    key: String,
    target: Target,
}

impl View for Lookup {
    type V = LookupView;

    closed spec fn view(&self) -> LookupView {
        LookupView { url: self.url@, key: self.key@, target: self.target@ }
    }
}

/// A request that passed the address guard and waits for the upstream's
/// answer, as mathematical values.
pub struct FetchView {
    pub url: Seq<char>,
    pub key: Seq<char>,
    pub policy: FetchPolicyView,
}

/// A request that passed the address guard and waits for the upstream's
/// answer.
pub struct Fetch {
    url: String,
    key: String,
    policy: FetchPolicy,
}

impl View for Fetch {
    type V = FetchView;

    closed spec fn view(&self) -> FetchView {
        FetchView { url: self.url@, key: self.key@, policy: self.policy@ }
    }
}

/// What the caller has to do next.
pub enum Step {
    /// The request is over: send this response.
    Respond(Response),
    /// Resolve the host of the target and report the addresses.
    Resolve(Lookup),
    /// Fetch the target and report what the upstream answered.
    Fetch(Fetch),
}

/// The bytes of an optional buffer.
pub open spec fn optional_bytes(buffer: Option<Vec<u8>>) -> Option<Seq<u8>> {
    match buffer {
        Some(bytes) => Some(bytes@),
        None => None,
    }
}

/// The addresses of an optional list.
pub open spec fn optional_addresses(list: Option<Vec<IpAddress>>) -> Option<Seq<IpAddress>> {
    match list {
        Some(addresses) => Some(addresses@),
        None => None,
    }
}

/// The view of an optional upstream answer.
pub open spec fn optional_upstream(upstream: Option<Upstream>) -> Option<UpstreamView> {
    match upstream {
        Some(answer) => Some(answer@),
        None => None,
    }
}

/// What validation makes of a request: the target to resolve, or the reason
/// for which the request is refused. A missing parameter is reported before
/// a wrong key, and a wrong key before anything is parsed.
pub open spec fn admission(secret: Seq<char>, url: Seq<char>, key: Seq<char>) -> Result<
    TargetView,
    Failure,
> {
    if url.len() == 0 {
        Err(Failure::MissingUrl)
    } else if key.len() == 0 {
        Err(Failure::MissingKey)
    } else if key != secret {
        Err(Failure::InvalidKey)
    } else {
        validated_target(url)
    }
}

/// What the address guard makes of a resolution: the reason for which the
/// request is refused, or `None` where the target may be fetched. A failed
/// resolution refuses the request, and so does a single forbidden address
/// among those resolved.
pub open spec fn guard_failure(addresses: Option<Seq<IpAddress>>) -> Option<Failure> {
    match addresses {
        None => Some(Failure::ResolutionFailed),
        Some(resolved) => if any_forbidden(resolved) {
            Some(Failure::ForbiddenAddress)
        } else {
            None
        },
    }
}

/// What is wrong with an upstream answer before its body is looked at, or
/// `None` where the body is to be processed.
pub open spec fn upstream_failure(upstream: Option<UpstreamView>) -> Option<Failure> {
    match upstream {
        None => Some(Failure::FetchFailed),
        Some(answer) => if answer.status != 200 {
            Some(Failure::UpstreamStatus)
        } else if answer.body.len() > HTTP_BODY_MAX_LENGTH {
            Some(Failure::BodyTooLarge)
        } else {
            None
        },
    }
}

/// The response for a rewritten playlist, given its text and the content
/// type of the upstream. The content type is passed through; a playlist that
/// came without one is the upstream's fault.
pub open spec fn written_response(content_type: Option<Seq<u8>>, text: Seq<u8>) -> ResponseView {
    match content_type {
        None => failure_response(Failure::MissingContentType),
        Some(value) => playlist_response(value, text),
    }
}

/// Composes the response for a rewritten playlist.
pub fn respond_written(content_type: Option<Vec<u8>>, text: Vec<u8>) -> (r: Response)
    ensures
        r@ == written_response(optional_bytes(content_type), text@),
{
    match content_type {
        None => Response::failure(Failure::MissingContentType),
        Some(value) => Response::playlist(value, text),
    }
}

/// Starts a request: validates its parameters and its target.
///
/// The request is refused with the failure that `admission` names, or goes on
/// to the resolution of the target's host.
pub fn begin(state: &State, request: ProxyRequest) -> (step: Step)
    ensures
        match admission(state@.key, request.url@, request.key@) {
            Err(failure) => step matches Step::Respond(r) && r@ == failure_response(failure),
            Ok(target) => step matches Step::Resolve(lookup) && lookup@ == (LookupView {
                url: request.url@,
                key: request.key@,
                target,
            }),
        },
{
    if request.url.as_str().is_empty() {
        return Step::Respond(Response::failure(Failure::MissingUrl));
    }
    if request.key.as_str().is_empty() {
        return Step::Respond(Response::failure(Failure::MissingKey));
    }
    if !state.accepts_key(&request.key) {
        return Step::Respond(Response::failure(Failure::InvalidKey));
    }
    match validate_target(request.url.as_str()) {
        Err(failure) => Step::Respond(Response::failure(failure)),
        Ok(target) => Step::Resolve(Lookup { url: request.url, key: request.key, target }),
    }
}

impl Lookup {
    /// The address to resolve, in the form `host:port`.
    pub fn address(&self) -> (r: String)
        ensures
            r@ == lookup_text(self@.target),
    {
        self.target.lookup_address()
    }

    /// The validated target.
    pub fn target(&self) -> (r: &Target)
        ensures
            r@ == self@.target,
    {
        &self.target
    }

    /// Goes on after the resolution of the host: `addresses` holds every
    /// address it resolved to, or `None` where resolution failed.
    ///
    /// The request is refused with the failure that `guard_failure` names;
    /// otherwise the target is to be fetched, by the URL as the client gave
    /// it and under the policy for its scheme.
    pub fn resolved(self, state: &State, addresses: Option<Vec<IpAddress>>) -> (step: Step)
        ensures
            match guard_failure(optional_addresses(addresses)) {
                Some(failure) => step matches Step::Respond(r) && r@ == failure_response(failure),
                None => step matches Step::Fetch(fetch) && fetch@ == (FetchView {
                    url: self@.url,
                    key: self@.key,
                    policy: fetch_policy(self@.target.scheme, state@.proxy),
                }),
            },
    {
        match addresses {
            None => Step::Respond(Response::failure(Failure::ResolutionFailed)),
            Some(resolved) => {
                if has_forbidden(&resolved) {
                    Step::Respond(Response::failure(Failure::ForbiddenAddress))
                } else {
                    let https_only = match self.target.scheme {
                        Scheme::Https => true,
                        Scheme::Http => false,
                    };
                    let policy = FetchPolicy {
                        connect_timeout: HTTP_CONNECTION_TIMEOUT,
                        timeout: HTTP_TIMEOUT,
                        max_redirects: HTTP_MAX_REDIRECTS,
                        referer: false,
                        https_only,
                        user_agent: String::from_str("muuuxy/1.0"),
                        proxy: match state.proxy() {
                            Some(p) => Some(String::from_str(p)),
                            None => None,
                        },
                    };
                    Step::Fetch(Fetch { url: self.url, key: self.key, policy })
                }
            },
        }
    }
}

/// Whether `response` answers the request `fetch` once the upstream has
/// answered.
///
/// An answer that failed, has another status than 200 or is too long is a
/// failure. A body that is no playlist is passed on unchanged. A playlist with
/// an entry that has no absolute URL, or without a content type, is a failure.
/// Any other playlist is answered with status 200, the upstream's content
/// type and the length of the body, and the body holds the rewritten URIs of
/// all entries, in their order.
pub open spec fn is_response_to(
    state: StateView,
    fetch: FetchView,
    upstream: Option<UpstreamView>,
    response: ResponseView,
) -> bool {
    match upstream_failure(upstream) {
        Some(failure) => response == failure_response(failure),
        None => {
            let answer = upstream->0;
            match parsed_playlist(answer.body) {
                None => response == binary_response(answer.body),
                Some((_, uris)) => if !all_resolvable(fetch.url, uris) {
                    response == failure_response(Failure::UnresolvableEntry)
                } else {
                    match answer.content_type {
                        None => response == failure_response(Failure::MissingContentType),
                        Some(content_type) => {
                            &&& response == playlist_response(content_type, response.body)
                            &&& holds_in_order(
                                response.body,
                                rewritten_uris(state, fetch.key, fetch.url, uris),
                            )
                        },
                    }
                },
            }
        },
    }
}

impl Fetch {
    /// The URL to fetch: the target as the client gave it.
    pub fn url(&self) -> (r: &str)
        ensures
            r@ == self@.url,
    {
        self.url.as_str()
    }

    /// How to fetch it.
    pub fn policy(&self) -> (r: &FetchPolicy)
        ensures
            r@ == self@.policy,
    {
        &self.policy
    }

    /// Ends the request with the upstream's answer, or with `None` where the
    /// upstream request failed. The response is the one that `is_response_to`
    /// describes.
    pub fn fetched(self, state: &State, upstream: Option<Upstream>) -> (r: Response)
        ensures
            is_response_to(state@, self@, optional_upstream(upstream), r@),
    {
        match upstream {
            None => Response::failure(Failure::FetchFailed),
            Some(answer) => {
                if answer.status != 200 {
                    Response::failure(Failure::UpstreamStatus)
                } else if answer.body.len() > HTTP_BODY_MAX_LENGTH {
                    Response::failure(Failure::BodyTooLarge)
                } else {
                    match rewrite_body(
                        answer.body.as_slice(),
                        state,
                        self.key.as_str(),
                        self.url.as_str(),
                    ) {
                        Rewrite::Binary => Response::binary(answer.body),
                        Rewrite::Unresolvable => Response::failure(Failure::UnresolvableEntry),
                        Rewrite::Playlist { master: _, uris: _, text } => respond_written(
                            answer.content_type,
                            text,
                        ),
                    }
                }
            },
        }
    }
}

/// A request that lacks its target URL or its key is refused with status 400,
/// whatever else it holds.
pub proof fn lemma_missing_parameter_refused(secret: Seq<char>, url: Seq<char>, key: Seq<char>)
    requires
        url.len() == 0 || key.len() == 0,
    ensures
        admission(secret, url, key) is Err,
        failure_response(admission(secret, url, key)->Err_0).status == 400,
{
}

/// A request that names a target and carries a key other than the configured
/// secret is refused with status 401, before its target is looked at.
pub proof fn lemma_wrong_key_unauthorized(secret: Seq<char>, url: Seq<char>, key: Seq<char>)
    requires
        url.len() > 0,
        key.len() > 0,
        key != secret,
    ensures
        admission(secret, url, key) == Err::<TargetView, Failure>(Failure::InvalidKey),
        failure_response(Failure::InvalidKey).status == 401,
{
}

/// A target whose scheme is neither `http` nor `https` is refused with status
/// 400: validation admits no such target, and a request for it that carries
/// the right key is refused with that status.
pub proof fn lemma_other_scheme_refused(secret: Seq<char>, url: Seq<char>, key: Seq<char>)
    requires
        !(parsed_uri(url) matches Some((Some(name), _)) && scheme_named(name) is Some),
    ensures
        validated_target(url) is Err,
        failure_response(validated_target(url)->Err_0).status == 400,
        key == secret ==> admission(secret, url, key) is Err && failure_response(
            admission(secret, url, key)->Err_0,
        ).status == 400,
{
}

/// The IPv4 ranges that are never routable to an origin: 127.0.0.0/8,
/// 10.0.0.0/8, 169.254.0.0/16, 224.0.0.0/4, 255.255.255.255 and 0.0.0.0.
pub open spec fn in_unroutable_range(address: IpAddress) -> bool {
    match address {
        IpAddress::V4(a, b, c, d) => {
            ||| a == 127
            ||| a == 10
            ||| (a == 169 && b == 254)
            ||| 224 <= a <= 239
            ||| (a == 255 && b == 255 && c == 255 && d == 255)
            ||| (a == 0 && b == 0 && c == 0 && d == 0)
        },
        IpAddress::V6(..) => false,
    }
}

/// A host that resolves only to addresses in the unroutable ranges, and to at
/// least one, is refused with status 400. The step that follows resolution
/// then ends in that response, so the target is never fetched.
pub proof fn lemma_unroutable_host_refused(addresses: Seq<IpAddress>)
    requires
        addresses.len() > 0,
        forall|i: int| 0 <= i < addresses.len() ==> in_unroutable_range(#[trigger] addresses[i]),
    ensures
        guard_failure(Some(addresses)) == Some(Failure::ForbiddenAddress),
        failure_response(Failure::ForbiddenAddress).status == 400,
{
    assert(in_unroutable_range(addresses[0]));
    assert(addresses[0].forbidden());
}

/// One forbidden address among those resolved is enough to refuse the
/// request, and a request is only fetched when none is forbidden.
pub proof fn lemma_guard_fails_closed(addresses: Seq<IpAddress>, i: int)
    requires
        0 <= i < addresses.len(),
        addresses[i].forbidden(),
    ensures
        guard_failure(Some(addresses)) == Some(Failure::ForbiddenAddress),
{
}

/// A body that is no playlist, from an upstream that answered 200 within the
/// size limit, is passed on unchanged: status 200, a `content-length` equal to
/// the body's length, and the very same bytes.
pub proof fn lemma_binary_passthrough(
    state: StateView,
    fetch: FetchView,
    answer: UpstreamView,
    response: ResponseView,
)
    requires
        is_response_to(state, fetch, Some(answer), response),
        answer.status == 200,
        answer.body.len() <= HTTP_BODY_MAX_LENGTH,
        parsed_playlist(answer.body) is None,
    ensures
        response == binary_response(answer.body),
        response.status == 200,
        response.content_length == Some(answer.body.len()),
        response.body == answer.body,
{
}

/// A body longer than the limit ends in status 500, whatever it holds and
/// whatever else the upstream answered.
pub proof fn lemma_oversized_body_fails(
    state: StateView,
    fetch: FetchView,
    answer: UpstreamView,
    response: ResponseView,
)
    requires
        is_response_to(state, fetch, Some(answer), response),
        answer.body.len() > HTTP_BODY_MAX_LENGTH,
    ensures
        response.status == 500,
{
}

/// A playlist, master or media, whose entries all have an absolute URL (as
/// they do whenever the target has a directory) and that came with status
/// 200, a content type and within the size limit, is answered with status 200
/// and that content type. The body holds as many rewritten URIs as
/// the playlist has entries, in the order of the entries; each is the proxy's
/// prefix followed by the `url` parameter, and that parameter percent-decodes
/// to the absolute URL of its entry.
pub proof fn lemma_playlist_rewritten(
    state: StateView,
    fetch: FetchView,
    answer: UpstreamView,
    response: ResponseView,
    master: bool,
    uris: Seq<Seq<char>>,
    i: int,
)
    requires
        is_response_to(state, fetch, Some(answer), response),
        answer.status == 200,
        answer.body.len() <= HTTP_BODY_MAX_LENGTH,
        answer.content_type is Some,
        parsed_playlist(answer.body) == Some((master, uris)),
        all_resolvable(fetch.url, uris),
        0 <= i < uris.len(),
    ensures
        response.status == 200,
        response.content_type == answer.content_type,
        response.content_length == Some(response.body.len()),
        ({
            let rewritten = rewritten_uris(state, fetch.key, fetch.url, uris);
            let prefix = proxy_prefix(state.scheme, state.domain, fetch.key);
            let absolute = absolute_child(fetch.url, uris[i])->0;
            &&& holds_in_order(response.body, rewritten)
            &&& rewritten.len() == uris.len()
            &&& rewritten[i] == prefix + encoded_text(absolute)
            &&& decode_utf8(percent_decode(encode_utf8(rewritten[i].skip(prefix.len() as int))))
                == absolute
        }),
{
    lemma_rewritten_entries(state, fetch.key, fetch.url, uris, i);
}

/// Every failure is answered with 400, 401 or 500, and a failure of the
/// upstream always with 500.
pub proof fn lemma_failure_statuses(failure: Failure)
    ensures
        failure.spec_status() == 400 || failure.spec_status() == 401 || failure.spec_status()
            == 500,
        failure_response(failure).status == failure.spec_status(),
{
}

} // verus!
