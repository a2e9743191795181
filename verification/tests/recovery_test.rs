use video_stream::recovery::{ErrorRecoveryPolicy, RetryStrategy};
use video_stream::stream_types::{IoFailure, StreamError, StreamState};

#[test]
fn test_retry_policy_immediate() {
    let policy = ErrorRecoveryPolicy {
        max_retries: 3,
        retry_strategy: RetryStrategy::Immediate,
        backoff_base_ms: 100,
        backoff_max_ms: 10_000,
    };
    assert_eq!(policy.calculate_delay(0), 0);
    assert_eq!(policy.calculate_delay(1), 0);
    assert_eq!(policy.calculate_delay(2), 0);
}

#[test]
fn test_retry_policy_linear() {
    let policy = ErrorRecoveryPolicy {
        max_retries: 3,
        retry_strategy: RetryStrategy::LinearBackoff,
        backoff_base_ms: 100,
        backoff_max_ms: 10_000,
    };
    assert_eq!(policy.calculate_delay(0), 100);
    assert_eq!(policy.calculate_delay(1), 200);
    assert_eq!(policy.calculate_delay(2), 300);
}

#[test]
fn test_retry_policy_exponential() {
    let policy = ErrorRecoveryPolicy {
        max_retries: 5,
        retry_strategy: RetryStrategy::ExponentialBackoff,
        backoff_base_ms: 100,
        backoff_max_ms: 10_000,
    };
    assert_eq!(policy.calculate_delay(0), 100);
    assert_eq!(policy.calculate_delay(1), 200);
    assert_eq!(policy.calculate_delay(2), 400);
    assert_eq!(policy.calculate_delay(3), 800);
    assert_eq!(policy.calculate_delay(4), 1600);
}

#[test]
fn test_retry_policy_max_delay() {
    let policy = ErrorRecoveryPolicy {
        max_retries: 10,
        retry_strategy: RetryStrategy::ExponentialBackoff,
        backoff_base_ms: 100,
        backoff_max_ms: 1_000,
    };
    assert_eq!(policy.calculate_delay(10), 1_000);
}

#[test]
fn test_should_retry() {
    let policy = ErrorRecoveryPolicy::default();

    assert!(policy.should_retry(&StreamError::ConnectionLost, 0));
    assert!(policy.should_retry(&StreamError::TransmissionTimeout, 0));
    assert!(policy.should_retry(&StreamError::NetworkError("test".to_string()), 0));

    assert!(!policy.should_retry(&StreamError::OperationNotSupported, 0));
    assert!(!policy.should_retry(&StreamError::SessionNotFound, 0));

    assert!(!policy.should_retry(&StreamError::ConnectionLost, 5));
}

#[test]
fn test_io_error_conversion() {
    let io_error = std::io::Error::new(std::io::ErrorKind::NotFound, "file not found");
    let stream_error: StreamError = StreamError::from_io_error(io_error);

    match stream_error {
        StreamError::FileNotFound(_) => assert!(true),
        _ => panic!("Expected FileNotFound error"),
    }
}

#[test]
fn test_stream_state_transitions() {
    let states = vec![
        StreamState::Initializing,
        StreamState::Streaming,
        StreamState::Paused,
        StreamState::Seeking,
        StreamState::Stopped,
    ];

    for state in states {
        match state {
            StreamState::Initializing => assert!(true),
            StreamState::Streaming => assert!(true),
            StreamState::Paused => assert!(true),
            StreamState::Seeking => assert!(true),
            StreamState::Stopped => assert!(true),
            StreamState::Error(_) => panic!("Unexpected error state"),
        }
    }
}

// Own tests.

#[test]
fn default_policy_values() {
    let policy = ErrorRecoveryPolicy::default();
    assert_eq!(policy.max_retries, 5);
    assert_eq!(policy.retry_strategy, RetryStrategy::ExponentialBackoff);
    assert_eq!(policy.backoff_base_ms, 100);
    assert_eq!(policy.backoff_max_ms, 30_000);
}

#[test]
fn backoff_never_exceeds_cap_and_never_shrinks() {
    let policy = ErrorRecoveryPolicy {
        max_retries: 10,
        retry_strategy: RetryStrategy::LinearBackoff,
        backoff_base_ms: 300,
        backoff_max_ms: 1_000,
    };
    let mut last = 0;
    for attempt in 0..10 {
        let d = policy.calculate_delay(attempt);
        assert!(d <= 1_000);
        assert!(d >= last);
        last = d;
    }
    assert_eq!(policy.calculate_delay(2), 900);
    assert_eq!(policy.calculate_delay(3), 1_000);
}

#[test]
fn file_read_errors_are_retried() {
    let policy = ErrorRecoveryPolicy::default();
    assert!(policy.should_retry(&StreamError::FileReadError("x".to_string()), 4));
    assert!(!policy.should_retry(&StreamError::FileNotFound("x".to_string()), 0));
}

#[test]
fn io_failures_map_to_stream_errors() {
    assert!(matches!(
        StreamError::for_io_failure(IoFailure::PermissionDenied, "p".to_string()),
        StreamError::FileNotAccessible(ref m) if m == "p"
    ));
    assert!(matches!(
        StreamError::for_io_failure(IoFailure::TimedOut, String::new()),
        StreamError::TransmissionTimeout
    ));
    assert!(matches!(
        StreamError::for_io_failure(IoFailure::BrokenPipe, String::new()),
        StreamError::ConnectionLost
    ));
    assert!(matches!(
        StreamError::for_io_failure(IoFailure::Other, "o".to_string()),
        StreamError::Io(ref m) if m == "o"
    ));
    let e = StreamError::from_io_error(std::io::Error::new(std::io::ErrorKind::ConnectionReset, "reset"));
    assert!(matches!(e, StreamError::ConnectionLost));
    let e = StreamError::from_io_error(std::io::Error::new(std::io::ErrorKind::Other, "boom"));
    assert!(matches!(e, StreamError::Io(ref m) if m == "boom"));
}
