use http_req::error::{Error, ErrorCause, ParseCause, ParseErr};
use std::sync::mpsc::RecvTimeoutError;

fn utf8_failure() -> std::str::Utf8Error {
    std::str::from_utf8(&[b'o', b'k', 0xff]).unwrap_err()
}

fn native_tls_failure() -> native_tls::Error {
    match native_tls::Certificate::from_pem(b"not a certificate") {
        Err(e) => e,
        Ok(_) => panic!("junk was accepted as a certificate"),
    }
}

#[test]
fn utf8_chain_ends_in_the_failure() {
    let e = utf8_failure();
    let err = Error::from(ParseErr::from(e));
    match err.source() {
        Some(ErrorCause::Parse(p)) => {
            assert_eq!(*p, ParseErr::Utf8(e));
            match p.source() {
                Some(ParseCause::Utf8(inner)) => assert_eq!(*inner, e),
                other => panic!("unexpected cause: {:?}", other),
            }
        }
        other => panic!("unexpected cause: {:?}", other),
    }
}

#[test]
fn int_chain_ends_in_the_failure() {
    let e = "".parse::<i64>().unwrap_err();
    let err = Error::from(ParseErr::from(e.clone()));
    match err.source() {
        Some(ErrorCause::Parse(p)) => {
            assert_eq!(*p, ParseErr::Int(e.clone()));
            match p.source() {
                Some(ParseCause::Int(inner)) => assert_eq!(*inner, e),
                other => panic!("unexpected cause: {:?}", other),
            }
        }
        other => panic!("unexpected cause: {:?}", other),
    }
}

#[test]
fn utf8_shortcut_matches_the_long_way() {
    let e = utf8_failure();
    let direct = Error::from(e);
    let wrapped = Error::from(ParseErr::Utf8(e));
    match (direct, wrapped) {
        (Error::Parse(a), Error::Parse(b)) => {
            assert_eq!(a, b);
            assert_eq!(a, ParseErr::Utf8(e));
        }
        other => panic!("unexpected pair: {:?}", other),
    }
}

#[test]
fn io_failure_is_kept() {
    let e = std::io::Error::new(std::io::ErrorKind::UnexpectedEof, "cut short");
    let err = Error::from(e);
    assert_eq!(err.to_string(), "Error: IO error");
    match err.source() {
        Some(ErrorCause::IO(inner)) => {
            assert_eq!(inner.kind(), std::io::ErrorKind::UnexpectedEof);
            assert_eq!(inner.to_string(), "cut short");
        }
        other => panic!("unexpected cause: {:?}", other),
    }
}

#[test]
fn timeout_failure_is_kept() {
    let err = Error::from(RecvTimeoutError::Timeout);
    assert_eq!(err.to_string(), "Error: Timeout error");
    match err.source() {
        Some(ErrorCause::Timeout(inner)) => assert_eq!(*inner, RecvTimeoutError::Timeout),
        other => panic!("unexpected cause: {:?}", other),
    }
    let err = Error::from(RecvTimeoutError::Disconnected);
    assert_eq!(err.to_string(), "Error: Timeout error");
    match err.source() {
        Some(ErrorCause::Timeout(inner)) => assert_eq!(*inner, RecvTimeoutError::Disconnected),
        other => panic!("unexpected cause: {:?}", other),
    }
}

#[test]
fn parse_failure_shows_as_the_parse_err_does() {
    let all = || {
        vec![
            ParseErr::Utf8(utf8_failure()),
            ParseErr::Int("x".parse::<u8>().unwrap_err()),
            ParseErr::StatusErr,
            ParseErr::HeadersErr,
            ParseErr::UriErr,
            ParseErr::Invalid,
            ParseErr::Empty,
        ]
    };
    for (p, q) in all().into_iter().zip(all()) {
        assert_eq!(Error::Parse(p).to_string(), q.to_string());
    }
    assert_eq!(
        Error::Parse(ParseErr::Empty).to_string(),
        "ParseErr: nothing to parse"
    );
}

#[test]
fn tls_shows_fixed_line_and_no_cause() {
    assert_eq!(Error::Tls.to_string(), "Error: TLS error");
    assert!(Error::Tls.source().is_none());
}

#[test]
fn native_tls_handshake_failure_becomes_tls() {
    let e: native_tls::HandshakeError<std::io::Empty> =
        native_tls::HandshakeError::Failure(native_tls_failure());
    let err = Error::from(e);
    assert!(matches!(err, Error::Tls));
    assert_eq!(err.to_string(), "Error: TLS error");
    assert!(err.source().is_none());
}

#[test]
fn native_tls_failure_becomes_tls() {
    let err = Error::tls(native_tls_failure());
    assert!(matches!(err, Error::Tls));
    assert_eq!(err.to_string(), "Error: TLS error");
    assert!(err.source().is_none());
}

#[test]
fn rustls_failure_becomes_tls() {
    let err = Error::tls(rustls::Error::General(String::from("handshake refused")));
    assert!(matches!(err, Error::Tls));
    assert_eq!(err.to_string(), "Error: TLS error");
    assert!(err.source().is_none());
    let err = Error::tls(rustls::Error::DecryptError);
    assert!(matches!(err, Error::Tls));
}
