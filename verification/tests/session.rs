use leaderboard_gateway::{GatewayError, Session};

fn extract(value: &[u8]) -> Result<Session, GatewayError> {
    Session::from_request_parts(Some(value))
}

#[test]
fn bearer_token_is_extracted() {
    assert_eq!(
        extract(b"Bearer fpKL54jvWmEGVoRdCNjG"),
        Ok(Session(String::from("fpKL54jvWmEGVoRdCNjG")))
    );
}

#[test]
fn token_is_what_follows_the_scheme() {
    let session = extract(b"Bearer abc.def-ghi_jkl~mno+pqr/stu=").unwrap();
    assert_eq!(session.token(), "abc.def-ghi_jkl~mno+pqr/stu=");
    assert_eq!(session.0, "abc.def-ghi_jkl~mno+pqr/stu=");
}

#[test]
fn missing_header_is_auth_missing() {
    assert_eq!(
        Session::from_request_parts(None),
        Err(GatewayError::AuthMissing)
    );
}

#[test]
fn other_schemes_are_auth_missing() {
    assert_eq!(
        extract(b"Basic QWxhZGRpbjpvcGVuIHNlc2FtZQ=="),
        Err(GatewayError::AuthMissing)
    );
    assert_eq!(extract(b"Digest abc"), Err(GatewayError::AuthMissing));
    assert_eq!(extract(b"Token abc"), Err(GatewayError::AuthMissing));
}

#[test]
fn malformed_values_are_auth_missing() {
    assert_eq!(extract(b""), Err(GatewayError::AuthMissing));
    assert_eq!(extract(b"Bearer"), Err(GatewayError::AuthMissing));
    assert_eq!(extract(b"Bear"), Err(GatewayError::AuthMissing));
    assert_eq!(extract(b"Bearerabc"), Err(GatewayError::AuthMissing));
    assert_eq!(extract(b"abc"), Err(GatewayError::AuthMissing));
    assert_eq!(extract(b" Bearer abc"), Err(GatewayError::AuthMissing));
    assert_eq!(extract(b"Bearer\tabc"), Err(GatewayError::AuthMissing));
}

#[test]
fn bytes_that_no_header_holds_are_auth_missing() {
    assert_eq!(extract(b"Bearer abc\n"), Err(GatewayError::AuthMissing));
    assert_eq!(extract(b"Bearer a\x00c"), Err(GatewayError::AuthMissing));
    assert_eq!(extract(b"Bearer a\x7fc"), Err(GatewayError::AuthMissing));
}

#[test]
fn bytes_outside_ascii_are_auth_missing() {
    assert_eq!(extract(b"Bearer ab\xfac"), Err(GatewayError::AuthMissing));
    assert_eq!(
        extract("Bearer caf\u{e9}".as_bytes()),
        Err(GatewayError::AuthMissing)
    );
}

#[test]
fn scheme_is_read_without_regard_to_case() {
    assert_eq!(extract(b"bearer abc"), Ok(Session(String::from("abc"))));
    assert_eq!(extract(b"BEARER abc"), Ok(Session(String::from("abc"))));
    assert_eq!(extract(b"bEaReR abc"), Ok(Session(String::from("abc"))));
}

#[test]
fn blanks_before_the_token_are_dropped() {
    assert_eq!(extract(b"Bearer    abc"), Ok(Session(String::from("abc"))));
    assert_eq!(extract(b"Bearer \tabc"), Ok(Session(String::from("abc"))));
}

#[test]
fn what_follows_the_token_is_kept() {
    assert_eq!(extract(b"Bearer abc "), Ok(Session(String::from("abc "))));
    assert_eq!(
        extract(b"Bearer abc def"),
        Ok(Session(String::from("abc def")))
    );
}

#[test]
fn scheme_alone_with_a_blank_gives_the_empty_token() {
    assert_eq!(extract(b"Bearer "), Ok(Session(String::new())));
    assert_eq!(extract(b"Bearer    "), Ok(Session(String::new())));
}

#[test]
fn from_token_takes_the_decoded_token() {
    assert_eq!(
        Session::from_token(Some(String::from("abc"))),
        Ok(Session(String::from("abc")))
    );
    assert_eq!(Session::from_token(None), Err(GatewayError::AuthMissing));
}
