use external_capture::auth::{
    authorize_credentials, authorize_upgrade, byte_difference, constant_time_eq, rejection, AUTHORIZATION,
    CAPTURE_PATH, NOT_FOUND, UNAUTHORIZED,
};

fn request(path: &str, credentials: &str) -> http::Request<()> {
    http::Request::builder()
        .uri(path)
        .header(http::header::AUTHORIZATION, credentials)
        .body(())
        .unwrap()
}

#[test]
fn authorization_requires_path_and_bearer_token() {
    let ok = request(CAPTURE_PATH, "Bearer correct");
    assert!(authorize_upgrade(ok.uri().path(), ok.headers(), "correct").is_ok());

    let wrong = request(CAPTURE_PATH, "Bearer wrong");
    assert_eq!(
        authorize_upgrade(wrong.uri().path(), wrong.headers(), "correct")
            .unwrap_err()
            .status,
        http::StatusCode::UNAUTHORIZED.as_u16()
    );

    let path = request("/other", "Bearer correct");
    assert_eq!(
        authorize_upgrade(path.uri().path(), path.headers(), "correct")
            .unwrap_err()
            .status,
        http::StatusCode::NOT_FOUND.as_u16()
    );
}

#[test]
fn rejections_say_what_is_wrong() {
    let headers = http::HeaderMap::new();
    let missing = authorize_upgrade("/other", &headers, "correct").unwrap_err();
    assert_eq!((missing.status, missing.body.as_str()), (404, "not found"));
    let refused = authorize_upgrade(CAPTURE_PATH, &headers, "correct").unwrap_err();
    assert_eq!((refused.status, refused.body.as_str()), (401, "unauthorized"));
    assert_eq!(NOT_FOUND, http::StatusCode::NOT_FOUND.as_u16());
    assert_eq!(UNAUTHORIZED, http::StatusCode::UNAUTHORIZED.as_u16());
    let built = rejection(503, "later");
    assert_eq!((built.status, built.body.as_str()), (503, "later"));
}

#[test]
fn the_header_is_named_as_http_names_it() {
    assert_eq!(http::header::AUTHORIZATION.as_str(), AUTHORIZATION);
}

#[test]
fn only_the_first_authorization_header_counts() {
    let mut headers = http::HeaderMap::new();
    headers.append(http::header::HOST, "Bearer correct".parse().unwrap());
    assert!(authorize_upgrade(CAPTURE_PATH, &headers, "correct").is_err());
    headers.append(http::header::AUTHORIZATION, "Bearer correct".parse().unwrap());
    headers.append(http::header::AUTHORIZATION, "Bearer wrong".parse().unwrap());
    assert!(authorize_upgrade(CAPTURE_PATH, &headers, "correct").is_ok());
    assert!(authorize_upgrade(CAPTURE_PATH, &headers, "wrong").is_err());
}

#[test]
fn the_scheme_is_taken_literally() {
    for credentials in ["correct", "bearer correct", "Bearer  correct", "Bearer correct ", ""] {
        assert!(authorize_credentials(
            CAPTURE_PATH,
            Some(credentials.as_bytes().to_vec()),
            "correct"
        )
        .is_err());
    }
    assert!(authorize_credentials(CAPTURE_PATH, None, "correct").is_err());
    assert!(authorize_credentials(CAPTURE_PATH, Some(b"Bearer correct".to_vec()), "correct").is_ok());
}

#[test]
fn the_path_is_taken_literally() {
    for path in ["", "/", "capture", "/captur", "/capture/", "/Capture"] {
        let refused =
            authorize_credentials(path, Some(b"Bearer correct".to_vec()), "correct").unwrap_err();
        assert_eq!(refused.status, NOT_FOUND);
    }
}

#[test]
fn a_token_beyond_visible_ascii_lets_nobody_in() {
    let token = "p\u{e4}ss";
    let credentials = format!("Bearer {token}");
    assert!(
        authorize_credentials(CAPTURE_PATH, Some(credentials.as_bytes().to_vec()), token).is_err()
    );
    let mut headers = http::HeaderMap::new();
    headers.insert(
        http::header::AUTHORIZATION,
        http::HeaderValue::from_bytes(credentials.as_bytes()).unwrap(),
    );
    assert!(authorize_upgrade(CAPTURE_PATH, &headers, token).is_err());
    assert!(authorize_credentials(CAPTURE_PATH, Some(b"Bearer a\nb".to_vec()), "a\nb").is_err());
    assert!(authorize_credentials(CAPTURE_PATH, Some(b"Bearer a\tb".to_vec()), "a\tb").is_ok());
}

#[test]
fn tokens_are_compared_whole() {
    assert!(constant_time_eq("", ""));
    assert!(constant_time_eq("secret", "secret"));
    assert!(!constant_time_eq("secret", "secreT"));
    assert!(!constant_time_eq("secret", "secre"));
    assert!(!constant_time_eq("secret", "secrets"));
    assert!(!constant_time_eq("secret", ""));
    assert!(!constant_time_eq("a", "a\0"));
    assert!(!constant_time_eq("\0", ""));
    assert!(constant_time_eq("p\u{e4}ss", "p\u{e4}ss"));
    let long = "x".repeat(256);
    assert!(!constant_time_eq(&long, ""));
}

#[test]
fn the_difference_gathers_every_byte() {
    assert_eq!(byte_difference(b"", b""), 0);
    assert_eq!(byte_difference(b"abc", b"abc"), 0);
    assert_eq!(byte_difference(&[1, 2, 4], &[0, 0, 0]), 7);
    assert_eq!(byte_difference(&[8], &[0]), 8);
    assert_eq!(byte_difference(&[], &[16, 32, 0, 0]), 4 | 16 | 32);
}
