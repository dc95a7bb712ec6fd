use ssr::error::{InitializationError, IoFailure, IoFailureKind, RenderingError};
use ssr::text::decimal;

fn refused() -> IoFailure {
    IoFailure {
        kind: IoFailureKind::ConnectionRefused,
        description: String::from("Connection refused (os error 111)"),
    }
}

fn broken_pipe() -> IoFailure {
    IoFailure { kind: IoFailureKind::Other, description: String::from("Broken pipe (os error 32)") }
}

#[test]
fn decimal_writes_zero_as_one_digit() {
    assert_eq!(decimal(0), "0");
}

#[test]
fn decimal_writes_without_leading_zeros() {
    assert_eq!(decimal(7), "7");
    assert_eq!(decimal(10), "10");
    assert_eq!(decimal(105), "105");
    assert_eq!(decimal(9000), "9000");
    assert_eq!(decimal(65535), "65535");
}

#[test]
fn decimal_writes_the_largest_number() {
    assert_eq!(decimal(u64::MAX), "18446744073709551615");
    assert_eq!(decimal(u64::MAX), u64::MAX.to_string());
}

#[test]
fn decimal_agrees_with_the_standard_library() {
    let mut n: u64 = 1;
    for _ in 0..19 {
        assert_eq!(decimal(n), n.to_string());
        assert_eq!(decimal(n - 1), (n - 1).to_string());
        n *= 10;
    }
}

#[test]
fn io_failure_tells_a_refusal_from_other_failures() {
    assert!(refused().is_connection_refused());
    assert!(!broken_pipe().is_connection_refused());
}

#[test]
fn initialization_error_invalid_addr_text() {
    let err = InitializationError::InvalidAddr(String::from("invalid socket address syntax"));
    assert_eq!(err.to_string(), "Invalid worker address: invalid socket address syntax");
}

#[test]
fn initialization_error_invalid_js_worker_path_text() {
    let err = InitializationError::InvalidJsWorkerPath(IoFailure {
        kind: IoFailureKind::Other,
        description: String::from("No such file or directory (os error 2)"),
    });
    assert_eq!(
        err.to_string(),
        "Invalid js worker path: No such file or directory (os error 2). Make sure file at path exists and path is valid."
    );
}

#[test]
fn initialization_error_invalid_global_js_renderer_path_text() {
    let err = InitializationError::InvalidGlobalJsRendererPath(IoFailure {
        kind: IoFailureKind::Other,
        description: String::from("No such file or directory (os error 2)"),
    });
    assert_eq!(
        err.to_string(),
        "Invalid global js renderer path: No such file or directory (os error 2). Make sure file at path exists and path is valid."
    );
}

#[test]
fn initialization_error_spawn_text() {
    let err = InitializationError::SpawnNodeProcessError(IoFailure {
        kind: IoFailureKind::Other,
        description: String::from("Permission denied (os error 13)"),
    });
    assert_eq!(
        err.to_string(),
        "Failed to spawn worker process: Permission denied (os error 13)"
    );
}

#[test]
fn io_failure_converts_to_spawn_error() {
    let err = InitializationError::from(broken_pipe());
    assert_eq!(err, InitializationError::SpawnNodeProcessError(broken_pipe()));
    let err: InitializationError = refused().into();
    assert_eq!(err, InitializationError::SpawnNodeProcessError(refused()));
}

#[test]
fn rendering_error_texts_without_a_cause() {
    assert_eq!(RenderingError::WorkerIsUnavailable.to_string(), "Worker is unavailable");
    assert_eq!(RenderingError::InvalidUri.to_string(), "Invalid URI");
    assert_eq!(
        RenderingError::GlobalRendererNotProvided.to_string(),
        "Rendering request supposed to use global js renderer but it wasn't provided on renderer initialization"
    );
}

#[test]
fn rendering_error_connection_text() {
    assert_eq!(
        RenderingError::ConnectionError(refused()).to_string(),
        "Connection error: Connection refused (os error 111)"
    );
}

#[test]
fn rendering_error_serialization_texts() {
    assert_eq!(
        RenderingError::UrlSerializationError(String::from("key must be a string")).to_string(),
        "Failed to serialize URL: key must be a string"
    );
    assert_eq!(
        RenderingError::DataSerializationError(String::from("key must be a string")).to_string(),
        "Failed to serialize data: key must be a string"
    );
}

#[test]
fn rendering_error_request_and_response_share_a_text() {
    assert_eq!(
        RenderingError::RenderRequestError(broken_pipe()).to_string(),
        "Failed to communicate with rendering process: Broken pipe (os error 32)"
    );
    assert_eq!(
        RenderingError::RenderResponseError(broken_pipe()).to_string(),
        "Failed to communicate with rendering process: Broken pipe (os error 32)"
    );
}

#[test]
fn rendering_error_js_exception_text() {
    assert_eq!(
        RenderingError::JsExceptionDuringRendering(String::from("TypeError: x is not defined"))
            .to_string(),
        "JS Exception during rendering: TypeError: x is not defined"
    );
}

#[test]
fn rendering_error_with_an_empty_cause() {
    assert_eq!(
        RenderingError::JsExceptionDuringRendering(String::new()).to_string(),
        "JS Exception during rendering: "
    );
}
