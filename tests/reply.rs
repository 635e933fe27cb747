use paste::errors::PasteErrorKind;
use paste::reply::{banner, forced_headers, recover, Failure};

#[test]
fn mapping_table() {
    let cases = [
        (Failure::NoRoute, 404, "not found"),
        (Failure::Paste(PasteErrorKind::FileNotFound), 404, "not found"),
        (
            Failure::Paste(PasteErrorKind::InvalidRequest),
            400,
            "bad request\n\nhttps://github.com/s-thom/paste#creating-new-pastes",
        ),
        (Failure::Paste(PasteErrorKind::FileRead), 500, "unknown error"),
        (Failure::Paste(PasteErrorKind::FileWrite), 500, "unknown error"),
        (Failure::Paste(PasteErrorKind::InvalidAuthorization), 401, "unauthorized"),
        (Failure::Malformed, 400, "bad request"),
        (Failure::MissingCredential, 401, "unauthorized"),
        (Failure::UnsupportedMediaType, 400, "bad request"),
        (Failure::MethodNotAllowed, 405, "method not allowed"),
        (Failure::Unrecognized, 500, "unexpected error"),
    ];
    for (failure, status, message) in cases {
        let reply = recover(failure);
        assert_eq!(reply.status, status);
        assert_eq!(reply.message, message);
    }
}

#[test]
fn banner_names_the_version() {
    assert_eq!(
        banner("1.2.3"),
        "paste v1.2.3\n\nA tiny paste utility for self-hosting.\nhttps://github.com/s-thom/paste\n"
    );
}

#[test]
fn responses_are_plain_text_and_not_sniffed() {
    let headers = forced_headers();
    assert_eq!(headers.len(), 3);
    assert_eq!(headers[0], ("content-type".to_string(), "text/plain".to_string()));
    assert_eq!(headers[1], ("x-content-type-options".to_string(), "nosniff".to_string()));
    assert_eq!(headers[2].0, "content-security-policy");
    assert_eq!(headers[2].1, "default-src 'none'; sandbox");
}
