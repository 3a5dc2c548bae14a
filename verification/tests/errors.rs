use openai_rst::error::{APIError, ErrorKind};

#[test]
fn the_kind_of_each_error() {
    assert_eq!(APIError::TransportError("x".to_string()).kind(), ErrorKind::Transport);
    assert_eq!(
        APIError::HttpStatusError { status: 500, body: String::new() }.kind(),
        ErrorKind::HttpStatus
    );
    assert_eq!(APIError::DecodeError("x".to_string()).kind(), ErrorKind::Decode);
    assert_eq!(APIError::Timeout.kind(), ErrorKind::Timeout);
    assert_eq!(APIError::ConfigurationError("x".to_string()).kind(), ErrorKind::Configuration);
    assert_eq!(APIError::IoError("x".to_string()).kind(), ErrorKind::Io);
}

#[test]
fn the_text_of_each_error() {
    assert_eq!(
        APIError::TransportError("connection refused".to_string()).to_string(),
        "TransportError: connection refused"
    );
    assert_eq!(
        APIError::HttpStatusError { status: 404, body: "not found".to_string() }.to_string(),
        "HttpStatusError: 404: not found"
    );
    assert_eq!(
        APIError::DecodeError("missing field".to_string()).to_string(),
        "DecodeError: missing field"
    );
    assert_eq!(APIError::Timeout.to_string(), "Timeout");
    assert_eq!(
        APIError::ConfigurationError("zero".to_string()).to_string(),
        "ConfigurationError: zero"
    );
    assert_eq!(APIError::IoError("disk full".to_string()).to_string(), "IoError: disk full");
}

#[test]
fn the_status_is_written_in_decimal() {
    assert_eq!(
        APIError::HttpStatusError { status: 0, body: String::new() }.to_string(),
        "HttpStatusError: 0: "
    );
    assert_eq!(
        APIError::HttpStatusError { status: 65535, body: "x".to_string() }.to_string(),
        "HttpStatusError: 65535: x"
    );
}
