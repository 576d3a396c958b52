//! Responses: every way a request can end, and the status, headers and body
//! that each one is answered with.

use vstd::prelude::*;
use vstd::string::StrSliceExecFns;
use vstd::utf8::*;

verus! {

/// The reasons for which a request is refused or fails.
#[derive(Clone, Copy, Debug, PartialEq, Eq, Structural)]
pub enum Failure {
    /// The request names no target URL.
    MissingUrl,
    /// The request carries no key.
    MissingKey,
    /// The key is not the configured secret.
    InvalidKey,
    /// The target does not parse as a URI, or has no host.
    InvalidTarget,
    /// The target's scheme is neither `http` nor `https`.
    UnsupportedScheme,
    /// The target's host could not be resolved.
    ResolutionFailed,
    /// The host resolves to an address that the proxy must not contact.
    ForbiddenAddress,
    /// The upstream request failed.
    FetchFailed,
    /// The upstream answered with a status other than 200.
    UpstreamStatus,
    /// The upstream body is longer than the proxy accepts.
    BodyTooLarge,
    /// A playlist entry is no absolute URL and the target has no directory
    /// to resolve it in: it does not parse as a URL or cannot be a base.
    UnresolvableEntry,
    /// The upstream sent a playlist without a content type.
    MissingContentType,
}

impl Failure {
    /// The HTTP status of a failure: 400 for what is wrong with the request,
    /// 401 for a wrong key, 500 for what goes wrong upstream.
    pub open spec fn spec_status(self) -> u16 {
        match self {
            Failure::MissingUrl => 400,
            Failure::MissingKey => 400,
            Failure::InvalidKey => 401,
            Failure::InvalidTarget => 400,
            Failure::UnsupportedScheme => 400,
            Failure::ResolutionFailed => 400,
            Failure::ForbiddenAddress => 400,
            Failure::FetchFailed => 500,
            Failure::UpstreamStatus => 500,
            Failure::BodyTooLarge => 500,
            Failure::UnresolvableEntry => 500,
            Failure::MissingContentType => 500,
        }
    }

    /// The short diagnostic sent as the body; empty where the response says
    /// nothing of the reason.
    pub open spec fn spec_message(self) -> Seq<char> {
        match self {
            Failure::MissingUrl => "path cannot be empty"@,
            Failure::MissingKey => "key cannot be empty"@,
            Failure::InvalidKey => "key is invalid"@,
            Failure::InvalidTarget => ""@,
            Failure::UnsupportedScheme => ""@,
            Failure::ResolutionFailed => ""@,
            Failure::ForbiddenAddress => ""@,
            Failure::FetchFailed => "failed to perform request on the proxied url"@,
            Failure::UpstreamStatus => "request to proxied server returned a non 200 status"@,
            Failure::BodyTooLarge => "content length of proxied request is great than max allowed"@,
            Failure::UnresolvableEntry => "proxied url is no base for the entries of its playlist"@,
            Failure::MissingContentType => "proxied url doesn't have the required content-type header"@,
        }
    }

    #[verifier::when_used_as_spec(spec_status)]
    pub fn status(self) -> (r: u16)
        ensures
            r == self.spec_status(),
    {
        match self {
            Failure::MissingUrl => 400,
            Failure::MissingKey => 400,
            Failure::InvalidKey => 401,
            Failure::InvalidTarget => 400,
            Failure::UnsupportedScheme => 400,
            Failure::ResolutionFailed => 400,
            Failure::ForbiddenAddress => 400,
            Failure::FetchFailed => 500,
            Failure::UpstreamStatus => 500,
            Failure::BodyTooLarge => 500,
            Failure::UnresolvableEntry => 500,
            Failure::MissingContentType => 500,
        }
    }

    pub fn message(self) -> (r: &'static str)
        ensures
            r@ == self.spec_message(),
    {
        match self {
            Failure::MissingUrl => "path cannot be empty",
            Failure::MissingKey => "key cannot be empty",
            Failure::InvalidKey => "key is invalid",
            Failure::InvalidTarget => "",
            Failure::UnsupportedScheme => "",
            Failure::ResolutionFailed => "",
            Failure::ForbiddenAddress => "",
            Failure::FetchFailed => "failed to perform request on the proxied url",
            Failure::UpstreamStatus => "request to proxied server returned a non 200 status",
            Failure::BodyTooLarge => "content length of proxied request is great than max allowed",
            Failure::UnresolvableEntry => "proxied url is no base for the entries of its playlist",
            Failure::MissingContentType => "proxied url doesn't have the required content-type header",
        }
    }
}

/// The media type of a body that is passed on as it came.
pub open spec fn octet_stream() -> Seq<u8> {
    encode_utf8("application/octet-stream"@)
}

/// A response, as mathematical values.
pub struct ResponseView {
    pub status: u16,
    /// The value of the `content-type` header, if the header is set.
    pub content_type: Option<Seq<u8>>,
    /// Whether the header `accept-ranges: bytes` is set.
    pub accept_ranges: bool,
    /// The value of the `content-length` header, if the response sets it
    /// itself.
    pub content_length: Option<nat>,
    pub body: Seq<u8>,
}

/// A response: status, the headers the proxy sets, and the body.
#[derive(Clone, Debug, PartialEq, Eq)]
pub struct Response {
    pub status: u16,
    /// The value of the `content-type` header, if the header is set.
    pub content_type: Option<Vec<u8>>,
    /// Whether the header `accept-ranges: bytes` is set.
    pub accept_ranges: bool,
    /// The value of the `content-length` header, if the response sets it
    /// itself.
    pub content_length: Option<usize>,
    pub body: Vec<u8>,
}

impl View for Response {
    type V = ResponseView;

    open spec fn view(&self) -> ResponseView {
        ResponseView {
            status: self.status,
            content_type: match self.content_type {
                Some(value) => Some(value@),
                None => None,
            },
            accept_ranges: self.accept_ranges,
            content_length: match self.content_length {
                Some(length) => Some(length as nat),
                None => None,
            },
            body: self.body@,
        }
    }
}

/// The response to a request that is refused or fails: the status of the
/// failure and its message as the body. A forbidden address is answered like
/// a refused binary body, with the octet-stream media type and
/// `accept-ranges`.
pub open spec fn failure_response(failure: Failure) -> ResponseView {
    ResponseView {
        status: failure.spec_status(),
        content_type: if failure == Failure::ForbiddenAddress {
            Some(octet_stream())
        } else {
            None
        },
        accept_ranges: failure == Failure::ForbiddenAddress,
        content_length: None,
        body: encode_utf8(failure.spec_message()),
    }
}

/// The response that passes a body on unchanged: 200, the octet-stream media
/// type, `accept-ranges`, the length of the body and the body itself.
pub open spec fn binary_response(body: Seq<u8>) -> ResponseView {
    ResponseView {
        status: 200,
        content_type: Some(octet_stream()),
        accept_ranges: true,
        content_length: Some(body.len()),
        body: body,
    }
}

/// The response that carries a rewritten playlist: 200, the content type the
/// upstream gave, the length of the text and the text.
pub open spec fn playlist_response(content_type: Seq<u8>, text: Seq<u8>) -> ResponseView {
    ResponseView {
        status: 200,
        content_type: Some(content_type),
        accept_ranges: false,
        content_length: Some(text.len()),
        body: text,
    }
}

/// The response to a liveness check: 200 and nothing else.
pub open spec fn healthy_response() -> ResponseView {
    ResponseView {
        status: 200,
        content_type: None,
        accept_ranges: false,
        content_length: None,
        body: Seq::empty(),
    }
}

impl Response {
    pub fn failure(failure: Failure) -> (r: Response)
        ensures
            r@ == failure_response(failure),
    {
        let forbidden = match failure {
            Failure::ForbiddenAddress => true,
            _ => false,
        };
        Response {
            status: failure.status(),
            content_type: if forbidden {
                Some("application/octet-stream".as_bytes_vec())
            } else {
                None
            },
            accept_ranges: forbidden,
            content_length: None,
            body: failure.message().as_bytes_vec(),
        }
    }

    pub fn binary(body: Vec<u8>) -> (r: Response)
        ensures
            r@ == binary_response(body@),
    {
        Response {
            status: 200,
            content_type: Some("application/octet-stream".as_bytes_vec()),
            accept_ranges: true,
            content_length: Some(body.len()),
            body,
        }
    }

    pub fn playlist(content_type: Vec<u8>, text: Vec<u8>) -> (r: Response)
        ensures
            r@ == playlist_response(content_type@, text@),
    {
        Response {
            status: 200,
            content_type: Some(content_type),
            accept_ranges: false,
            content_length: Some(text.len()),
            body: text,
        }
    }
}

/// Answers a liveness check.
pub fn healthz() -> (r: Response)
    ensures
        r@ == healthy_response(),
{
    Response {
        status: 200,
        content_type: None,
        accept_ranges: false,
        content_length: None,
        body: Vec::new(),
    }
}

} // verus!
