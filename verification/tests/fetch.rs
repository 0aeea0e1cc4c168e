use website::fetch::{validate_architecture_response, FetchError, MAX_ARCHITECTURE_BYTES};

#[test]
fn validate_success() {
    let s = validate_architecture_response(200, b"# Hello").unwrap();
    assert_eq!(s, "# Hello");
}

#[test]
fn validate_non_success_status() {
    assert_eq!(
        validate_architecture_response(404, b"nope"),
        Err(FetchError::UpstreamStatus)
    );
    assert_eq!(
        validate_architecture_response(500, b""),
        Err(FetchError::UpstreamStatus)
    );
}

#[test]
fn validate_too_large() {
    let blob = vec![b'a'; MAX_ARCHITECTURE_BYTES + 1];
    assert_eq!(
        validate_architecture_response(200, &blob),
        Err(FetchError::TooLarge)
    );
}

#[test]
fn validate_boundary_ok_at_max_size() {
    let blob = vec![b'b'; MAX_ARCHITECTURE_BYTES];
    assert!(validate_architecture_response(200, &blob).is_ok());
}

#[test]
fn validate_invalid_utf8() {
    assert_eq!(
        validate_architecture_response(200, &[0xff, 0xfe]),
        Err(FetchError::NotUtf8)
    );
}

#[test]
fn validate_size_checked_before_status() {
    let blob = vec![b'c'; MAX_ARCHITECTURE_BYTES + 1];
    assert_eq!(
        validate_architecture_response(404, &blob),
        Err(FetchError::TooLarge)
    );
}

#[test]
fn validate_status_checked_before_encoding() {
    assert_eq!(
        validate_architecture_response(302, &[0xff]),
        Err(FetchError::UpstreamStatus)
    );
    assert_eq!(
        validate_architecture_response(199, b"x"),
        Err(FetchError::UpstreamStatus)
    );
    assert_eq!(
        validate_architecture_response(300, b"x"),
        Err(FetchError::UpstreamStatus)
    );
}

#[test]
fn validate_accepts_whole_success_range_and_multibyte_text() {
    assert_eq!(
        validate_architecture_response(299, "Kompass — Nord".as_bytes()),
        Ok(String::from("Kompass — Nord"))
    );
    assert_eq!(validate_architecture_response(204, b""), Ok(String::new()));
}
