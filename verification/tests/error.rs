use pixeldrain::error::{ApiError, PixelDrainError, TransportFailure};

fn transport(timeout: bool, connect: bool, request: bool, message: &str) -> PixelDrainError {
    PixelDrainError::Reqwest(TransportFailure {
        timeout,
        connect,
        request,
        message: message.to_string(),
    })
}

fn api(status: u16) -> ApiError {
    ApiError {
        status,
        value: "not_found".to_string(),
        message: "The entity you requested could not be found".to_string(),
    }
}

#[test]
fn connect_timeout_is_retryable() {
    assert!(transport(true, true, false, "error sending request: operation timed out").is_retryable());
    assert!(transport(true, false, false, "").is_retryable());
    assert!(transport(false, true, false, "").is_retryable());
    assert!(transport(false, false, true, "").is_retryable());
}

#[test]
fn body_transfer_error_is_retryable_by_its_message() {
    assert!(transport(false, false, false, "request or response body error").is_retryable());
    assert!(
        transport(false, false, false, "upload: request or response body error: broken pipe")
            .is_retryable()
    );
    assert!(!transport(false, false, false, "request or response body").is_retryable());
    assert!(!transport(false, false, false, "error decoding response body").is_retryable());
    assert!(!transport(false, false, false, "").is_retryable());
}

#[test]
fn not_found_is_terminal() {
    assert!(!PixelDrainError::Api(api(404)).is_retryable());
    assert!(!PixelDrainError::Api(api(400)).is_retryable());
    assert!(!PixelDrainError::Api(api(499)).is_retryable());
    assert!(!api(404).is_server_error());
}

#[test]
fn service_unavailable_is_retryable() {
    assert!(PixelDrainError::Api(api(503)).is_retryable());
    assert!(PixelDrainError::Api(api(500)).is_retryable());
    assert!(api(599).is_server_error());
}

#[test]
fn malformed_json_is_terminal() {
    assert!(!PixelDrainError::Serde("expected value at line 1 column 1".to_string()).is_retryable());
}

#[test]
fn local_and_input_failures_are_terminal() {
    assert!(!PixelDrainError::Io("permission denied".to_string()).is_retryable());
    assert!(!PixelDrainError::InvalidUrl("relative URL without a base".to_string()).is_retryable());
    assert!(!PixelDrainError::FileNotFound("/tmp/missing".to_string()).is_retryable());
    assert!(!PixelDrainError::MissingApiKey.is_retryable());
}

#[test]
fn errors_describe_themselves() {
    assert_eq!(
        api(404).describe(),
        "API Error 404 Not Found: not_found - The entity you requested could not be found"
    );
    assert_eq!(
        PixelDrainError::Api(api(503)).describe(),
        "API error: API Error 503 Service Unavailable: not_found - The entity you requested could not be found"
    );
    assert_eq!(PixelDrainError::Io("disk full".to_string()).describe(), "IO error: disk full");
    assert_eq!(
        transport(true, false, false, "operation timed out").describe(),
        "Request error: operation timed out"
    );
    assert_eq!(
        PixelDrainError::Serde("missing field `id`".to_string()).describe(),
        "Serialization error: missing field `id`"
    );
    assert_eq!(
        PixelDrainError::InvalidUrl("empty host".to_string()).describe(),
        "Invalid URL: empty host"
    );
    assert_eq!(
        PixelDrainError::FileNotFound("a.txt".to_string()).describe(),
        "File not found: a.txt"
    );
    assert_eq!(PixelDrainError::MissingApiKey.describe(), "Missing API key");
}

#[test]
fn status_without_a_reason_phrase_is_marked_unknown() {
    let mut error = api(599);
    error.value = "error".to_string();
    error.message = "m".to_string();
    assert_eq!(error.describe(), "API Error 599 <unknown status code>: error - m");
    error.status = 42;
    assert_eq!(error.describe(), "API Error 42 <unknown status code>: error - m");
    error.status = 1000;
    assert_eq!(error.describe(), "API Error 1000 <unknown status code>: error - m");
    error.status = 413;
    assert_eq!(error.describe(), "API Error 413 Payload Too Large: error - m");
    error.status = 500;
    assert_eq!(error.describe(), "API Error 500 Internal Server Error: error - m");
}

#[test]
fn failure_of_a_body_is_retryable() {
    let failure = TransportFailure::body_failure("connection reset by peer");
    assert_eq!(
        failure,
        TransportFailure {
            timeout: false,
            connect: false,
            request: false,
            message: "request or response body error: connection reset by peer".to_string(),
        }
    );
    assert!(failure.is_retryable());
    assert!(PixelDrainError::Reqwest(TransportFailure::body_failure("")).is_retryable());
}
