use calendar::{AppError, RetryableError};

#[test]
fn test_error_display() {
    let err = AppError::config_error("config.toml", "missing field");
    assert!(err.message().contains("config.toml"));
    assert!(err.message().contains("missing field"));
}

#[test]
fn test_network_error() {
    let err = AppError::network_error("https://example.com", "connection refused");
    assert!(matches!(err, AppError::NetworkError { .. }));
}

#[test]
fn http_error_message_names_status() {
    let err = AppError::http_error("https://example.com/a.jpg", 503);
    assert_eq!(err.message(), "HTTP 错误: https://example.com/a.jpg 返回状态码 503");
}

#[test]
fn status_429_and_5xx_are_retryable() {
    let busy = RetryableError::from_error_message("whatever", Some(429));
    assert_eq!(busy, RetryableError::TooManyRequests);
    assert!(busy.is_retryable());
    assert_eq!(busy.suggested_delay_ms(), 5000);
    for code in [500u16, 502, 503, 599] {
        let e = RetryableError::from_error_message("whatever", Some(code));
        assert_eq!(e, RetryableError::ServerError(code));
        assert!(e.is_retryable());
        assert_eq!(e.suggested_delay_ms(), 2000);
    }
}

#[test]
fn unmatched_message_is_unknown_and_not_retryable() {
    let e = RetryableError::from_error_message("something odd happened", None);
    assert_eq!(e, RetryableError::Unknown("something odd happened".to_string()));
    assert!(!e.is_retryable());
    assert_eq!(e.suggested_delay_ms(), 0);
    let not_found = RetryableError::from_error_message("not found", Some(404));
    assert!(!not_found.is_retryable());
}

#[test]
fn messages_classify_case_insensitively() {
    let cases: Vec<(&str, RetryableError, u64)> = vec![
        ("Connection Timed Out after 30s", RetryableError::ConnectionTimeout, 1000),
        ("operation TIMED OUT", RetryableError::ReadTimeout, 1000),
        ("DNS error: failed to lookup", RetryableError::DnsFailed, 2000),
        ("Name or service not known", RetryableError::DnsFailed, 2000),
        ("No address associated with name", RetryableError::DnsFailed, 2000),
        ("Connection refused (os error 111)", RetryableError::ConnectionRefused, 2000),
        ("Network is unreachable", RetryableError::ConnectionFailed, 2000),
        ("connection reset by peer", RetryableError::ConnectionFailed, 2000),
        ("Broken pipe", RetryableError::ConnectionFailed, 2000),
        ("connection closed before message completed", RetryableError::ConnectionFailed, 2000),
        ("TLS handshake failed", RetryableError::TlsFailed, 3000),
        ("invalid peer certificate", RetryableError::TlsFailed, 3000),
        ("SSL routines", RetryableError::TlsFailed, 3000),
        (
            "could not decode response body",
            RetryableError::DecodingFailed("could not decode response body".to_string()),
            1000,
        ),
        ("Invalid UTF-8", RetryableError::DecodingFailed("Invalid UTF-8".to_string()), 1000),
        (
            "unexpected end of Stream",
            RetryableError::DecodingFailed("unexpected end of Stream".to_string()),
            1000,
        ),
    ];
    for (msg, expected, delay) in cases {
        let e = RetryableError::from_error_message(msg, None);
        assert_eq!(e, expected, "{}", msg);
        assert!(e.is_retryable());
        assert_eq!(e.suggested_delay_ms(), delay);
    }
}

#[test]
fn decoding_is_not_decode() {
    let e = RetryableError::from_error_message("error decoding response body", None);
    assert_eq!(e, RetryableError::Unknown("error decoding response body".to_string()));
}

#[test]
fn lowered_message_classification() {
    let e = RetryableError::from_lowered_message("broken pipe", "Broken Pipe", None);
    assert_eq!(e, RetryableError::ConnectionFailed);
    let e = RetryableError::from_lowered_message("Broken Pipe", "Broken Pipe", None);
    assert_eq!(e, RetryableError::Unknown("Broken Pipe".to_string()));
    let e = RetryableError::from_lowered_message("x", "x", Some(500));
    assert_eq!(e, RetryableError::ServerError(500));
    assert!(RetryableError::WriteTimeout.is_retryable());
    assert_eq!(RetryableError::WriteTimeout.suggested_delay_ms(), 1000);
}
