use pixeldrain::error::{ApiError, PixelDrainError};
use pixeldrain::state::{
    archive_arguments, archive_name, archiver_failure, exhausted_message, failure_message, push_bounded, stamped,
    DownloadHistoryEntry, TransferState, UploadHistoryEntry, STATE_LOG_LIMIT,
};
use pixeldrain::types::UploadResponse;

fn unavailable() -> PixelDrainError {
    PixelDrainError::Api(ApiError {
        status: 503,
        value: "error".to_string(),
        message: "try later".to_string(),
    })
}

#[test]
fn successful_upload_is_added_to_the_history() {
    let mut state = TransferState::new();
    state.last_error = Some("old".to_string());
    state.record_upload(
        Ok(UploadResponse { id: "abc123".to_string() }),
        "Upload error",
        "big.bin".to_string(),
        10 * 1024 * 1024,
        "2024-01-02T03:04:05Z".to_string(),
    );
    assert_eq!(
        state.upload_history,
        vec![UploadHistoryEntry {
            id: "abc123".to_string(),
            url: "https://pixeldrain.com/u/abc123".to_string(),
            filename: "big.bin".to_string(),
            size: 10485760,
            timestamp: "2024-01-02T03:04:05Z".to_string(),
        }]
    );
    assert!(state.upload_history[0].url.contains("abc123"));
    assert_eq!(state.last_error, None);
}

#[test]
fn failed_upload_stores_its_message() {
    let mut state = TransferState::new();
    state.record_upload(
        Ok(UploadResponse { id: "one".to_string() }),
        "Upload error",
        "a".to_string(),
        1,
        "t".to_string(),
    );
    state.record_upload(
        Err(unavailable()),
        "Upload error",
        "b".to_string(),
        2,
        "t".to_string(),
    );
    assert_eq!(state.upload_history.len(), 1);
    assert_eq!(
        state.last_error,
        Some("Upload error: API error: API Error 503 Service Unavailable: error - try later".to_string())
    );
}

#[test]
fn archiver_failure_after_successful_upload_is_only_logged() {
    let mut state = TransferState::new();
    state.record_directory_upload(
        Ok(UploadResponse { id: "dir1".to_string() }),
        "photos.tar.gz".to_string(),
        "2024-01-02T03:04:05Z".to_string(),
        Some("exit status: 2"),
        "03:04:05",
    );
    assert_eq!(
        state.upload_history,
        vec![UploadHistoryEntry {
            id: "dir1".to_string(),
            url: "https://pixeldrain.com/u/dir1".to_string(),
            filename: "photos.tar.gz".to_string(),
            size: 0,
            timestamp: "2024-01-02T03:04:05Z".to_string(),
        }]
    );
    assert_eq!(state.last_error, None);
    assert_eq!(
        state.debug_messages,
        vec!["[03:04:05] Tar process error: exit status: 2".to_string()]
    );
}

#[test]
fn directory_upload_failure_is_stored() {
    let mut state = TransferState::new();
    state.record_directory_upload(
        Err(PixelDrainError::MissingApiKey),
        "photos.tar.gz".to_string(),
        "t".to_string(),
        None,
        "03:04:05",
    );
    assert!(state.upload_history.is_empty());
    assert_eq!(
        state.last_error,
        Some("Directory upload error: Missing API key".to_string())
    );
    assert!(state.debug_messages.is_empty());
}

#[test]
fn downloads_are_recorded() {
    let mut state = TransferState::new();
    state.record_download(
        Err(unavailable()),
        "https://pixeldrain.com/u/abc".to_string(),
        "a.bin".to_string(),
        "/home/me/a.bin".to_string(),
        "t".to_string(),
    );
    assert!(state.download_history.is_empty());
    assert_eq!(
        state.last_error,
        Some("Download error: API error: API Error 503 Service Unavailable: error - try later".to_string())
    );
    state.record_download(
        Ok(()),
        "https://pixeldrain.com/u/abc".to_string(),
        "a.bin".to_string(),
        "/home/me/a.bin".to_string(),
        "t".to_string(),
    );
    assert_eq!(
        state.download_history,
        vec![DownloadHistoryEntry {
            url: "https://pixeldrain.com/u/abc".to_string(),
            filename: "a.bin".to_string(),
            local_path: "/home/me/a.bin".to_string(),
            timestamp: "t".to_string(),
        }]
    );
    assert_eq!(state.last_error, None);
}

#[test]
fn failures_outside_transfers() {
    let mut state = TransferState::new();
    state.record_failure("Failed to get file info", &PixelDrainError::MissingApiKey);
    assert_eq!(
        state.last_error,
        Some("Failed to get file info: Missing API key".to_string())
    );
    state.record_exhausted("delete file", 3, &unavailable());
    assert_eq!(
        state.last_error,
        Some(
            "Failed to delete file after 3 attempts: API error: API Error 503 Service Unavailable: error - try later"
                .to_string()
        )
    );
    state.clear_error();
    assert_eq!(state.last_error, None);
    assert_eq!(
        failure_message("Invalid URL", &PixelDrainError::InvalidUrl("empty host".to_string())),
        "Invalid URL: Invalid URL: empty host"
    );
    assert_eq!(
        exhausted_message("list files", 3, &PixelDrainError::MissingApiKey),
        "Failed to list files after 3 attempts: Missing API key"
    );
}

#[test]
fn log_keeps_its_most_recent_entries() {
    assert_eq!(STATE_LOG_LIMIT, 50);
    let mut state = TransferState::new();
    for i in 0..60 {
        state.log("12:00:00", &format!("message {}", i));
    }
    assert_eq!(state.debug_messages.len(), 50);
    assert_eq!(state.debug_messages[0], "[12:00:00] message 10");
    assert_eq!(state.debug_messages[49], "[12:00:00] message 59");

    let mut log = vec!["a".to_string(), "b".to_string()];
    push_bounded(&mut log, "c".to_string(), 3);
    assert_eq!(log, vec!["a", "b", "c"]);
    push_bounded(&mut log, "d".to_string(), 3);
    assert_eq!(log, vec!["b", "c", "d"]);
    push_bounded(&mut log, "e".to_string(), 0);
    assert_eq!(log, vec!["c", "d", "e"]);
    assert_eq!(stamped("01:02:03", "hello"), "[01:02:03] hello");
}

#[test]
fn archive_is_named_after_the_directory_unless_a_name_is_chosen() {
    assert_eq!(archive_name("", "photos"), "photos.tar.gz");
    assert_eq!(archive_name("backup.tgz", "photos"), "backup.tgz");
    assert_eq!(archive_name("", ""), ".tar.gz");
    assert_eq!(
        archive_arguments("/home/me", "photos"),
        vec!["czf", "-", "-C", "/home/me", "photos"]
    );
}

#[test]
fn archiver_fails_unless_it_exits_with_zero() {
    assert_eq!(archiver_failure(Ok(Some(0))), None);
    assert_eq!(archiver_failure(Ok(Some(2))), Some("exit status: 2".to_string()));
    assert_eq!(archiver_failure(Ok(Some(255))), Some("exit status: 255".to_string()));
    assert_eq!(archiver_failure(Ok(Some(-1))), Some("exit status: -1".to_string()));
    assert_eq!(
        archiver_failure(Ok(Some(i32::MIN))),
        Some("exit status: -2147483648".to_string())
    );
    assert_eq!(archiver_failure(Ok(None)), Some("ended without an exit code".to_string()));
    assert_eq!(
        archiver_failure(Err("No child processes".to_string())),
        Some("No child processes".to_string())
    );
}
