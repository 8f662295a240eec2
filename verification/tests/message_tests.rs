use adpt::event::{status_line, status_line_with, SessionError};
use adpt::plan::PlanningError;

#[test]
fn a_too_small_file_is_named_with_its_size() {
    assert_eq!(
        PlanningError::TooSmall { file_size: 4_999_999 }.message(),
        "File size (4999999 bytes) is too small for chunked upload"
    );
}

#[test]
fn a_too_large_file_is_named_with_the_limit() {
    assert_eq!(
        PlanningError::TooLarge { file_size: 1_048_576_000_001 }.message(),
        "File size (1048576000001 bytes) exceeds maximum uploadable size \
         (1048576000000 bytes = 10000 parts * 104857600 bytes)"
    );
}

#[test]
fn a_status_is_written_with_its_reason() {
    assert_eq!(status_line(200), "200 OK");
    assert_eq!(status_line(404), "404 Not Found");
    assert_eq!(status_line(503), "503 Service Unavailable");
    assert_eq!(status_line(299), "299 <unknown status code>");
    assert_eq!(status_line(42), "42 <unknown status code>");
    assert_eq!(status_line(1000), "1000 <unknown status code>");
    assert_eq!(status_line_with(418, Some("I'm a teapot".to_string())), "418 I'm a teapot");
    assert_eq!(status_line_with(418, None), "418 <unknown status code>");
}

#[test]
fn session_errors_have_their_messages() {
    assert_eq!(
        SessionError::InitFailed { status: 415, body: "jsonl only".to_string() }.message(),
        "Failed to initialize chunked upload: 415 Unsupported Media Type - jsonl only"
    );
    assert_eq!(
        SessionError::PartFailed { part_number: 3, status: 404, body: "missing".to_string() }
            .message(),
        "Failed to upload part 3: 404 Not Found - missing"
    );
    assert_eq!(
        SessionError::PartFailed { part_number: 10000, status: 500, body: String::new() }
            .message(),
        "Failed to upload part 10000: 500 Internal Server Error - "
    );
    assert_eq!(
        SessionError::FinalizeFailed { detail: "GraphQL errors: quota".to_string() }.message(),
        "Failed to create dataset: GraphQL errors: quota"
    );
    assert_eq!(
        SessionError::Io { detail: "Failed to read chunk".to_string() }.message(),
        "Failed to read chunk"
    );
    assert_eq!(
        SessionError::Transport { detail: "connection reset".to_string() }.message(),
        "connection reset"
    );
}
