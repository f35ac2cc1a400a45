use pixeldrain::coordinator::OperationKind;
use pixeldrain::error::{ApiError, PixelDrainError, TransportFailure};
use pixeldrain::progress::Progress;
use pixeldrain::retry::{
    exhausted, Phase, RetryDecision, RetryPolicy, RetryState, RetrySummary, DOWNLOAD_ATTEMPTS,
    RETRY_DELAY_SECS, UPLOAD_ATTEMPTS,
};

fn api(status: u16) -> PixelDrainError {
    PixelDrainError::Api(ApiError {
        status,
        value: "error".to_string(),
        message: "busy".to_string(),
    })
}

fn timeout() -> PixelDrainError {
    PixelDrainError::Reqwest(TransportFailure {
        timeout: true,
        connect: false,
        request: false,
        message: "operation timed out".to_string(),
    })
}

#[test]
fn budgets_and_delay_are_the_observed_ones() {
    assert_eq!(UPLOAD_ATTEMPTS, 3);
    assert_eq!(DOWNLOAD_ATTEMPTS, 5);
    assert_eq!(RETRY_DELAY_SECS, 3);
    assert_eq!(
        RetryPolicy::for_uploads(),
        RetryPolicy { max_attempts: 3, delay_secs: 3 }
    );
    assert_eq!(
        RetryPolicy::for_downloads(),
        RetryPolicy { max_attempts: 5, delay_secs: 3 }
    );
    assert_eq!(RetryPolicy::for_operation(OperationKind::Download).max_attempts, 5);
    assert_eq!(RetryPolicy::for_operation(OperationKind::Upload).max_attempts, 3);
    assert_eq!(RetryPolicy::for_operation(OperationKind::DeleteFile).max_attempts, 3);
    assert_eq!(RetryPolicy::for_operation(OperationKind::FetchLists).max_attempts, 3);
}

#[test]
fn upload_succeeds_on_third_attempt_after_two_server_errors() {
    let mut state = RetryState::new(RetryPolicy::for_uploads());
    let mut resets = 0;
    let outcomes = [Some(api(503)), Some(api(503)), None];
    let mut waited = Vec::new();
    let mut last = Progress { num: 7, den: 9 };
    for outcome in outcomes.iter() {
        assert!(state.can_start());
        let shown = state.start_attempt();
        assert_eq!(shown, Progress { num: 0, den: 1 });
        resets += 1;
        match outcome {
            None => {
                last = state.succeed();
            }
            Some(error) => match state.fail(error) {
                RetryDecision::RetryAfter { delay_secs } => waited.push(delay_secs),
                RetryDecision::GiveUp => panic!("gave up with attempts left"),
            },
        }
    }
    assert_eq!(resets, 3);
    assert_eq!(state.attempts, 3);
    assert_eq!(state.phase, Phase::Finished);
    assert!(!state.can_start());
    assert_eq!(waited, vec![3, 3]);
    assert_eq!(last, Progress { num: 1, den: 1 });
}

#[test]
fn persistent_server_errors_use_up_the_budget_and_end_in_the_error() {
    let mut state = RetryState::new(RetryPolicy::for_uploads());
    let error = api(500);
    let mut attempts = 0;
    loop {
        assert!(state.can_start());
        state.start_attempt();
        attempts += 1;
        if state.fail(&error) == RetryDecision::GiveUp {
            break;
        }
    }
    assert_eq!(attempts, 3);
    assert_eq!(state.attempts, 3);
    assert_eq!(state.phase, Phase::Finished);
}

#[test]
fn terminal_error_ends_the_operation_at_once() {
    let mut state = RetryState::new(RetryPolicy::for_downloads());
    state.start_attempt();
    assert!(state.is_running());
    assert_eq!(state.fail(&api(404)), RetryDecision::GiveUp);
    assert_eq!(state.attempts, 1);
    assert_eq!(state.phase, Phase::Finished);
}

#[test]
fn decide_looks_at_error_and_attempt_number() {
    let policy = RetryPolicy { max_attempts: 5, delay_secs: 3 };
    assert_eq!(
        policy.decide(1, &timeout()),
        RetryDecision::RetryAfter { delay_secs: 3 }
    );
    assert_eq!(
        policy.decide(4, &api(502)),
        RetryDecision::RetryAfter { delay_secs: 3 }
    );
    assert_eq!(policy.decide(5, &api(502)), RetryDecision::GiveUp);
    assert_eq!(policy.decide(1, &PixelDrainError::MissingApiKey), RetryDecision::GiveUp);
    assert_eq!(policy.decide(1, &api(400)), RetryDecision::GiveUp);
}

#[test]
fn empty_budget_is_finished_before_it_begins() {
    let state = RetryState::new(RetryPolicy { max_attempts: 0, delay_secs: 3 });
    assert_eq!(state.phase, Phase::Finished);
    assert_eq!(state.attempts, 0);
    assert!(!state.can_start());
    let summary = RetryState::run_scripted(
        RetryPolicy { max_attempts: 0, delay_secs: 3 },
        &vec![None],
    );
    assert_eq!(summary, RetrySummary { attempts: 0, succeeded: false });
}

#[test]
fn scripted_runs_never_exceed_the_budget() {
    let policy = RetryPolicy::for_uploads();
    let summary = RetryState::run_scripted(policy, &vec![Some(api(503)), Some(api(503)), None]);
    assert_eq!(summary, RetrySummary { attempts: 3, succeeded: true });

    let summary = RetryState::run_scripted(
        policy,
        &vec![Some(api(503)), Some(timeout()), Some(api(500)), None, None],
    );
    assert_eq!(summary, RetrySummary { attempts: 3, succeeded: false });

    let summary = RetryState::run_scripted(policy, &vec![Some(api(404)), None]);
    assert_eq!(summary, RetrySummary { attempts: 1, succeeded: false });

    let summary = RetryState::run_scripted(policy, &vec![None]);
    assert_eq!(summary, RetrySummary { attempts: 1, succeeded: true });

    let summary = RetryState::run_scripted(policy, &vec![]);
    assert_eq!(summary, RetrySummary { attempts: 0, succeeded: false });

    let downloads = RetryPolicy::for_downloads();
    let many: Vec<Option<PixelDrainError>> = (0..20).map(|_| Some(timeout())).collect();
    let summary = RetryState::run_scripted(downloads, &many);
    assert_eq!(summary, RetrySummary { attempts: 5, succeeded: false });
}

#[test]
fn exhausted_error_names_the_operation() {
    assert_eq!(
        exhausted("Upload"),
        PixelDrainError::Api(ApiError {
            status: 500,
            value: "error".to_string(),
            message: "Upload failed after all retry attempts".to_string(),
        })
    );
    assert!(exhausted("Download").is_retryable());
}
