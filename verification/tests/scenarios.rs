use pixeldrain::client::PixelDrainClient;
use pixeldrain::config::PixelDrainConfig;
use pixeldrain::coordinator::{Coordinator, OperationKind, TransferProgress};
use pixeldrain::error::{PixelDrainError, TransportFailure};
use pixeldrain::progress::{Progress, ProgressReader};
use pixeldrain::retry::{RetryDecision, RetryPolicy, RetryState};
use pixeldrain::state::TransferState;
use pixeldrain::transport::parse_json_response;
use pixeldrain::types::UploadResponse;

const TEN_MB: u64 = 10 * 1024 * 1024;

/// One attempt of an upload of `size` bytes that the server answers with
/// `status`: every read is reported, and the response is split by its status.
fn attempt_upload(
    coordinator: &mut Coordinator,
    id: usize,
    clock: &mut u64,
    size: u64,
    status: u16,
) -> Result<UploadResponse, PixelDrainError> {
    let mut reader = ProgressReader::new_file(size);
    let mut remaining = size;
    let mut last = Progress::zero();
    while remaining > 0 {
        let n = remaining.min(65536) as usize;
        let report = reader.read(n).unwrap();
        assert!(last.at_most(&report));
        last = report;
        *clock += 1;
        coordinator.publish(id, *clock, report);
        remaining -= n as u64;
    }
    parse_json_response(
        status,
        "{\"id\":\"f1L3\"}".to_string(),
        None,
        Ok(UploadResponse { id: "f1L3".to_string() }),
    )
}

#[test]
fn scenario_upload_recovers_from_two_server_errors() {
    let client =
        PixelDrainClient::new(PixelDrainConfig::default().with_api_key("key".to_string())).unwrap();
    assert!(client.upload_file("/data/big.bin", true).is_ok());

    let mut coordinator = Coordinator::new();
    let mut state = TransferState::new();
    let id = coordinator.begin(OperationKind::Upload);
    let mut clock: u64 = 1_000_000;
    let mut retry = RetryState::new(RetryPolicy::for_uploads());
    let statuses = [503u16, 503, 200];
    let mut resets = 0;
    let mut outcome = None;
    while retry.can_start() {
        let shown = retry.start_attempt();
        assert_eq!(shown, Progress { num: 0, den: 1 });
        resets += 1;
        clock += 3000;
        assert!(coordinator.publish(id, clock, shown));
        assert_eq!(coordinator.progress(id), TransferProgress { num: 0, den: 1 });
        let status = statuses[(retry.attempts - 1) as usize];
        match attempt_upload(&mut coordinator, id, &mut clock, TEN_MB, status) {
            Ok(response) => {
                let done = retry.succeed();
                coordinator.publish(id, clock, done);
                outcome = Some(Ok(response));
            }
            Err(error) => {
                if retry.fail(&error) == RetryDecision::GiveUp {
                    outcome = Some(Err(error));
                }
            }
        }
    }
    assert_eq!(resets, 3);
    assert_eq!(retry.attempts, 3);
    let outcome = outcome.unwrap();
    assert!(outcome.is_ok());
    state.record_upload(
        outcome.clone(),
        "Upload error",
        "big.bin".to_string(),
        TEN_MB,
        "2024-01-02T03:04:05Z".to_string(),
    );
    coordinator.finish(id, outcome.is_ok());

    let entry = state.upload_history.last().unwrap();
    assert_eq!(entry.size, 10 * 1024 * 1024);
    assert_eq!(entry.url, "https://pixeldrain.com/u/f1L3");
    assert_eq!(PixelDrainClient::extract_file_id(&entry.url), Ok("f1L3".to_string()));
    assert_eq!(state.last_error, None);
    assert!(!coordinator.is_running(id));
    assert_eq!(coordinator.progress(id), TransferProgress { num: 1, den: 1 });
}

#[test]
fn scenario_download_with_declared_length() {
    // A body of 1000 bytes read through a buffer of 8192 bytes arrives in
    // reads of at most 8192 bytes; here in two reads of 500.
    let mut reader = ProgressReader::for_download(Some(1000));
    let buffer: usize = 8192;
    let first = 500usize.min(buffer);
    let report = reader.read(first).unwrap();
    assert_eq!(report.num as f32 / report.den as f32, 0.5);
    assert_eq!(report, Progress { num: 500, den: 1000 });
    let report = reader.read(500).unwrap();
    assert!(report.reached_end());
    assert_eq!(reader.read(0), Some(Progress { num: 1000, den: 1000 }));
}

#[test]
fn scenario_archiver_fails_after_successful_upload() {
    let client =
        PixelDrainClient::new(PixelDrainConfig::default().with_api_key("key".to_string())).unwrap();
    let request = client.upload_stream_put("my photos.tar.gz").unwrap();
    assert_eq!(request.url, "https://pixeldrain.com/api/file/my%20photos.tar.gz");

    let mut coordinator = Coordinator::new();
    let mut state = TransferState::new();
    let id = coordinator.begin(OperationKind::Upload);
    let mut reader = ProgressReader::new_stream();
    let mut clock = 0u64;
    for _ in 0..300 {
        let report = reader.read(8192).unwrap();
        assert!(!report.reached_end());
        clock += 20;
        assert!(coordinator.publish(id, clock, report));
    }
    assert_eq!(coordinator.progress(id), TransferProgress { num: 95, den: 100 });
    let outcome = parse_json_response(
        201,
        "{\"id\":\"d1R\"}".to_string(),
        None,
        Ok(UploadResponse { id: "d1R".to_string() }),
    );
    state.record_directory_upload(
        outcome.clone(),
        "my photos.tar.gz".to_string(),
        "2024-01-02T03:04:05Z".to_string(),
        Some("exit status: 2"),
        "03:04:05",
    );
    coordinator.finish(id, outcome.is_ok());

    assert_eq!(state.upload_history.len(), 1);
    assert_eq!(state.upload_history[0].id, "d1R");
    assert_eq!(state.upload_history[0].size, 0);
    assert_eq!(state.last_error, None);
    assert_eq!(state.debug_messages.len(), 1);
    assert!(state.debug_messages[0].ends_with("Tar process error: exit status: 2"));
    assert_eq!(coordinator.progress(id), TransferProgress { num: 1, den: 1 });
}

#[test]
fn scenario_two_deletes_back_to_back() {
    let client =
        PixelDrainClient::new(PixelDrainConfig::default().with_api_key("key".to_string())).unwrap();
    let first_request = client.delete_file("aaa").unwrap();
    let second_request = client.delete_file("bbb").unwrap();
    assert_ne!(first_request.url, second_request.url);

    let mut coordinator = Coordinator::new();
    let first = coordinator.begin(OperationKind::DeleteFile);
    let second = coordinator.begin(OperationKind::DeleteFile);
    let mut first_retry = RetryState::new(RetryPolicy::for_operation(OperationKind::DeleteFile));
    let mut second_retry = RetryState::new(RetryPolicy::for_operation(OperationKind::DeleteFile));

    coordinator.publish(first, 100, first_retry.start_attempt());
    coordinator.publish(second, 100, second_retry.start_attempt());
    let refused = PixelDrainError::Reqwest(TransportFailure {
        timeout: false,
        connect: true,
        request: false,
        message: "connection refused".to_string(),
    });
    assert_eq!(second_retry.fail(&refused), RetryDecision::RetryAfter { delay_secs: 3 });
    let done = first_retry.succeed();
    coordinator.publish(first, 200, done);
    coordinator.finish(first, true);

    assert!(!coordinator.is_running(first));
    assert!(coordinator.is_running(second));
    assert_eq!(coordinator.progress(first), TransferProgress { num: 1, den: 1 });
    assert_eq!(coordinator.progress(second), TransferProgress { num: 0, den: 1 });
    assert_eq!(first_retry.attempts, 1);
    assert_eq!(second_retry.attempts, 1);

    coordinator.publish(second, 3200, second_retry.start_attempt());
    let done = second_retry.succeed();
    coordinator.publish(second, 3300, done);
    coordinator.finish(second, true);
    assert!(!coordinator.is_busy(OperationKind::DeleteFile));
    assert_eq!(second_retry.attempts, 2);
    assert_eq!(coordinator.progress(first), TransferProgress { num: 1, den: 1 });
    assert_eq!(coordinator.progress(second), TransferProgress { num: 1, den: 1 });
}
