use muuuxy::response::{healthz, Failure, Response};

#[test]
fn failure_statuses() {
    assert_eq!(Failure::MissingUrl.status(), 400);
    assert_eq!(Failure::MissingKey.status(), 400);
    assert_eq!(Failure::InvalidKey.status(), 401);
    assert_eq!(Failure::InvalidTarget.status(), 400);
    assert_eq!(Failure::UnsupportedScheme.status(), 400);
    assert_eq!(Failure::ResolutionFailed.status(), 400);
    assert_eq!(Failure::ForbiddenAddress.status(), 400);
    assert_eq!(Failure::FetchFailed.status(), 500);
    assert_eq!(Failure::UpstreamStatus.status(), 500);
    assert_eq!(Failure::BodyTooLarge.status(), 500);
    assert_eq!(Failure::UnresolvableEntry.status(), 500);
    assert_eq!(Failure::MissingContentType.status(), 500);
}

#[test]
fn failure_messages() {
    assert_eq!(Failure::MissingUrl.message(), "path cannot be empty");
    assert_eq!(Failure::MissingKey.message(), "key cannot be empty");
    assert_eq!(Failure::InvalidKey.message(), "key is invalid");
    assert_eq!(Failure::UnsupportedScheme.message(), "");
    assert_eq!(Failure::ForbiddenAddress.message(), "");
    assert_eq!(
        Failure::FetchFailed.message(),
        "failed to perform request on the proxied url"
    );
    assert_eq!(
        Failure::UpstreamStatus.message(),
        "request to proxied server returned a non 200 status"
    );
    assert_eq!(
        Failure::BodyTooLarge.message(),
        "content length of proxied request is great than max allowed"
    );
    assert_eq!(
        Failure::MissingContentType.message(),
        "proxied url doesn't have the required content-type header"
    );
}

#[test]
fn failure_response_carries_status_and_message() {
    let r = Response::failure(Failure::InvalidKey);
    assert_eq!(
        r,
        Response {
            status: 401,
            content_type: None,
            accept_ranges: false,
            content_length: None,
            body: b"key is invalid".to_vec(),
        }
    );
}

#[test]
fn forbidden_address_is_answered_like_a_refused_binary() {
    let r = Response::failure(Failure::ForbiddenAddress);
    assert_eq!(
        r,
        Response {
            status: 400,
            content_type: Some(b"application/octet-stream".to_vec()),
            accept_ranges: true,
            content_length: None,
            body: Vec::new(),
        }
    );
}

#[test]
fn binary_response_passes_the_body_on() {
    let body = vec![0u8, 159, 146, 150, 255];
    let r = Response::binary(body.clone());
    assert_eq!(
        r,
        Response {
            status: 200,
            content_type: Some(b"application/octet-stream".to_vec()),
            accept_ranges: true,
            content_length: Some(5),
            body,
        }
    );
}

#[test]
fn playlist_response_passes_the_content_type_through() {
    let r = Response::playlist(b"application/vnd.apple.mpegurl".to_vec(), b"#EXTM3U\n".to_vec());
    assert_eq!(
        r,
        Response {
            status: 200,
            content_type: Some(b"application/vnd.apple.mpegurl".to_vec()),
            accept_ranges: false,
            content_length: Some(8),
            body: b"#EXTM3U\n".to_vec(),
        }
    );
}

#[test]
fn health_check_is_an_empty_200() {
    assert_eq!(
        healthz(),
        Response {
            status: 200,
            content_type: None,
            accept_ranges: false,
            content_length: None,
            body: Vec::new(),
        }
    );
}
