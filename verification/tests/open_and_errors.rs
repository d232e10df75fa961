//! The dispatcher, the local handlers, the configuration builder, and
//! the error taxonomy, exercised on concrete inputs. No test leaves the
//! machine: network-backed schemes are exercised only up to their
//! verified rewriting, or against a port nothing listens on.

use gofer::{open, Error, IoKind, RequestConfig, Scheme, Stream};

#[test]
fn invalid_url_is_rejected_before_any_handler() {
    assert!(matches!(open("not a url"), Err(Error::InvalidUrl(_))));
    assert!(matches!(open("://missing.scheme/x"), Err(Error::InvalidUrl(_))));
}

#[test]
fn unknown_scheme_carries_the_parsed_scheme() {
    match open("telnet://example.com/x") {
        Err(Error::UnknownScheme(s)) => assert_eq!(s, "telnet"),
        _ => panic!("expected UnknownScheme"),
    }
    match open("TELNET://example.com/x") {
        Err(Error::UnknownScheme(s)) => assert_eq!(s, "TELNET"),
        _ => panic!("expected UnknownScheme"),
    }
}

#[test]
fn scp_is_outside_the_enabled_set() {
    match open("scp://host/path") {
        Err(Error::UnknownScheme(s)) => assert_eq!(s, "scp"),
        _ => panic!("expected UnknownScheme"),
    }
}

#[test]
fn data_url_decodes_to_exactly_its_bytes() {
    match open("data:text/plain;base64,SGVsbG8=") {
        Ok(Stream::Memory(bytes)) => assert_eq!(bytes, b"Hello"),
        _ => panic!("expected an in-memory stream"),
    }
}

#[test]
fn data_url_with_bad_header_is_invalid() {
    assert!(matches!(open("data:text/plain;base64"), Err(Error::InvalidDataUrl(_))));
}

#[test]
fn data_url_with_bad_payload_is_invalid_body() {
    assert!(matches!(
        open("data:text/plain;base64,SGVsbG8=!"),
        Err(Error::InvalidDataUrlBody(_))
    ));
}

#[test]
fn missing_file_fails_with_not_found() {
    match open("file:///no/such/path/for/these/tests") {
        Err(Error::FailedFileIo(kind, message)) => {
            assert_eq!(kind, IoKind::NotFound);
            assert!(!message.is_empty());
        },
        _ => panic!("expected FailedFileIo"),
    }
}

#[test]
fn present_file_opens_as_a_file_stream() {
    assert!(matches!(open("file:///"), Ok(Stream::File(_))));
}

#[test]
fn stdin_url_never_fails() {
    assert!(matches!(open("stdin:"), Ok(Stream::Stdin(_))));
}

#[test]
fn ftp_url_without_path_or_authority_is_invalid() {
    assert!(matches!(open("ftp://host.example"), Err(Error::InvalidFtpUrl(_))));
    assert!(matches!(open("ftp:relative"), Err(Error::InvalidFtpUrl(_))));
}

#[test]
fn ftp_request_parts_default_the_credentials_and_port() {
    let url = gofer::Url {
        raw: "ftp://host.example/pub/file.txt".to_string(),
        scheme: "ftp".to_string(),
        authority: Some(gofer::UrlAuthority {
            user: None,
            password: None,
            host: "host.example".to_string(),
            port: None,
        }),
        segments: Some(vec!["pub".to_string(), "file.txt".to_string()]),
        local_path: None,
    };
    let parts = gofer::schemes::ftp::request_parts(&url, false).unwrap();
    assert_eq!(parts.host, "host.example");
    assert_eq!(parts.port, 21);
    assert_eq!(parts.user, "anonymous");
    assert_eq!(parts.password, "");
    assert_eq!(parts.dirname, "pub");
    assert_eq!(parts.basename, "file.txt");
    let secure = gofer::schemes::ftp::request_parts(&url, true).unwrap();
    assert_eq!(secure.port, 990);
}

#[test]
fn ftp_request_parts_percent_decode_the_path_and_password() {
    let url = gofer::Url {
        raw: "ftp://u:p%20w@h:2121/a%20b/sub/c%2Bd.txt".to_string(),
        scheme: "ftp".to_string(),
        authority: Some(gofer::UrlAuthority {
            user: Some("u".to_string()),
            password: Some("p%20w".to_string()),
            host: "h".to_string(),
            port: Some(2121),
        }),
        segments: Some(vec!["a%20b".to_string(), "sub".to_string(), "c%2Bd.txt".to_string()]),
        local_path: None,
    };
    let parts = gofer::schemes::ftp::request_parts(&url, false).unwrap();
    assert_eq!(parts.host, "h");
    assert_eq!(parts.port, 2121);
    assert_eq!(parts.user, "u");
    assert_eq!(parts.password, "p w");
    assert_eq!(parts.dirname, "a b/sub");
    assert_eq!(parts.basename, "c+d.txt");
}

#[test]
fn refused_connection_is_a_failed_http_request() {
    // Nothing listens on the reserved port 1 of the loopback address.
    assert!(matches!(open("http://127.0.0.1:1/x"), Err(Error::FailedHttpRequest(_))));
}

#[test]
fn git_url_with_unsupported_host_fails_without_fetching() {
    assert!(matches!(open("git://bitbucket.org/o/r/blob/m/p"), Err(Error::InvalidGitUrl(_))));
}

#[test]
fn ipfs_url_without_prefix_fails_without_fetching() {
    // The scheme parses as `ipfs`, but there is no `ipfs://` prefix,
    // because the URL carries no authority.
    assert!(matches!(open("ipfs:bafyXYZ"), Err(Error::InvalidIpfsUrl(_))));
}

#[test]
fn open_with_config_dispatches_like_open_for_local_schemes() {
    let config = RequestConfig::new().with_header("Accept", "text/plain");
    match gofer::open_with_config("data:text/plain;base64,SGVsbG8=", config) {
        Ok(Stream::Memory(bytes)) => assert_eq!(bytes, b"Hello"),
        _ => panic!("expected an in-memory stream"),
    }
    let config = RequestConfig::new();
    assert!(matches!(
        gofer::open_with_config("telnet://example.com/x", config),
        Err(Error::UnknownScheme(_))
    ));
    // The configuration is forwarded to the git handler too; a bad git
    // URL still fails before anything is fetched.
    let config = RequestConfig::new().with_header("Accept", "text/plain");
    assert!(matches!(
        gofer::open_with_config("git://bitbucket.org/o/r/blob/m/p", config),
        Err(Error::InvalidGitUrl(_))
    ));
}

#[test]
fn request_config_collects_headers_in_order() {
    let config = RequestConfig::new();
    assert_eq!(config.headers.len(), 0);
    let config = RequestConfig::new()
        .with_header("User-Agent", "gofer/1.0")
        .with_header("Accept", "application/json");
    assert_eq!(config.headers.len(), 2);
    assert_eq!(config.headers[0].0, "User-Agent");
    assert_eq!(config.headers[0].1, "gofer/1.0");
    assert_eq!(config.headers[1].0, "Accept");
    assert_eq!(config.headers[1].1, "application/json");
}

#[test]
fn request_config_replaces_a_repeated_header_name() {
    let config = RequestConfig::new()
        .with_header("Accept", "text/plain")
        .with_header("User-Agent", "gofer/1.0")
        .with_header("Accept", "application/json");
    assert_eq!(config.headers.len(), 2);
    assert_eq!(config.headers[0].0, "User-Agent");
    assert_eq!(config.headers[1].0, "Accept");
    assert_eq!(config.headers[1].1, "application/json");
}

#[test]
fn scheme_classification_ignores_ascii_case() {
    assert_eq!(gofer::url::scheme_of("HTTP"), Scheme::Http);
    assert_eq!(gofer::url::scheme_of("https"), Scheme::Https);
    assert_eq!(gofer::url::scheme_of("Stdin"), Scheme::Stdin);
    assert_eq!(gofer::url::scheme_of("telnet"), Scheme::Unrecognized);
}

#[test]
fn error_messages_name_what_went_wrong() {
    assert_eq!(Error::InvalidUrl("x".to_string()).message(), "invalid URL: x");
    assert_eq!(Error::UnknownScheme("telnet".to_string()).message(), "unknown URL scheme: telnet");
    assert_eq!(
        Error::FailedFileIo(IoKind::NotFound, "gone".to_string()).message(),
        "failed file I/O: gone"
    );
}

#[test]
fn generic_conversion_collapses_transport_failures() {
    let f = Error::FailedFtpRequest("refused".to_string()).into_io_failure();
    assert_eq!(f.kind, IoKind::Other);
    assert_eq!(f.message, "refused");
    let h = Error::FailedHttpRequest("timed out".to_string()).into_io_failure();
    assert_eq!(h.kind, IoKind::Other);
    let u = Error::InvalidUrl("bad".to_string()).into_io_failure();
    assert_eq!(u.kind, IoKind::InvalidInput);
    let b = Error::InvalidDataUrlBody("bad".to_string()).into_io_failure();
    assert_eq!(b.kind, IoKind::InvalidData);
}

#[test]
fn generic_conversion_keeps_file_io_losslessly() {
    let f = Error::FailedFileIo(IoKind::PermissionDenied, "no".to_string()).into_io_failure();
    assert_eq!(f.kind, IoKind::PermissionDenied);
    assert_eq!(f.message, "no");
}

#[test]
fn cause_accessors_recover_only_their_own_kind() {
    assert_eq!(
        Error::FailedHttpRequest("cause".to_string()).into_http_cause().unwrap(),
        "cause"
    );
    assert!(matches!(
        Error::FailedFtpRequest("cause".to_string()).into_http_cause(),
        Err(Error::FailedFtpRequest(_))
    ));
    assert_eq!(Error::FailedFtpRequest("cause".to_string()).into_ftp_cause().unwrap(), "cause");
    assert_eq!(Error::InvalidDataUrl("cause".to_string()).into_data_url_cause().unwrap(), "cause");
    assert_eq!(
        Error::InvalidDataUrlBody("cause".to_string()).into_data_url_body_cause().unwrap(),
        "cause"
    );
    assert!(matches!(
        Error::UnknownScheme("scp".to_string()).into_data_url_cause(),
        Err(Error::UnknownScheme(_))
    ));
}

#[test]
fn memory_stream_hands_its_bytes_out() {
    let bytes = Stream::Memory(vec![1, 2, 3]).into_memory_bytes();
    assert_eq!(bytes, Some(vec![1, 2, 3]));
}
