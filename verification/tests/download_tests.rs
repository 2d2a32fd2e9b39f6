use rez_tools::download::{
    backoff_delay, http_error, status_is_success, temp_path_for, DownloadClient, DownloadStep,
};
use rez_tools::error::RezToolsError;

fn failure(text: &str) -> Result<(), RezToolsError> {
    Err(RezToolsError::ConfigError(text.to_string()))
}

#[test]
fn test_download_client_new() {
    let client = DownloadClient::new();
    assert_eq!(client.max_retries, 3);
    assert_eq!(client.timeout_secs, 300);
}

#[test]
fn test_download_client_default() {
    let client = DownloadClient::default();
    assert_eq!(client.max_retries, 3);
    assert_eq!(client.timeout_secs, 300);
}

#[test]
fn test_exponential_backoff_calculation() {
    // Attempt 1: 2^0 = 1 second
    assert_eq!(backoff_delay(1), 1);
    // Attempt 2: 2^1 = 2 seconds
    assert_eq!(backoff_delay(2), 2);
    // Attempt 3: 2^2 = 4 seconds
    assert_eq!(backoff_delay(3), 4);
}

#[test]
fn backoff_at_the_ceiling() {
    assert_eq!(backoff_delay(10), 512);
    assert_eq!(backoff_delay(64), 1u64 << 63);
}

#[test]
fn file_download_gives_up_after_three_attempts() {
    let client = DownloadClient::new();
    assert_eq!(client.user_agent(), "rez-tools/0.1.0");
    let mut task = client.begin("http://h/f.txt", Some("/tmp/f.txt"));
    assert_eq!(task.attempt_count, 1);
    assert_eq!(task.max_attempts, 3);
    assert_eq!(task.timeout_secs, 300);
    assert_eq!(task.destination.as_deref(), Some("/tmp/f.txt"));

    match task.after_attempt(failure("Request failed: a")) {
        DownloadStep::Retry { attempt, delay_secs } => {
            assert_eq!(attempt, 2);
            assert_eq!(delay_secs, 1);
        }
        other => panic!("unexpected step {:?}", other),
    }
    assert_eq!(task.attempt_count, 2);
    match task.after_attempt(failure("Request failed: b")) {
        DownloadStep::Retry { attempt, delay_secs } => {
            assert_eq!(attempt, 3);
            assert_eq!(delay_secs, 2);
        }
        other => panic!("unexpected step {:?}", other),
    }
    match task.after_attempt(failure("Request failed: c")) {
        DownloadStep::Failed(e) => {
            assert_eq!(
                e.to_string(),
                "Configuration error: Failed to download http://h/f.txt after 3 attempts: \
                 Configuration error: Request failed: c"
            );
            assert!(e.to_string().contains("Failed to download"));
        }
        other => panic!("unexpected step {:?}", other),
    }
    assert_eq!(task.attempt_count, 3);
    assert_eq!(task.url, "http://h/f.txt");
}

#[test]
fn memory_download_gives_up_with_address_and_attempt_count() {
    let client = DownloadClient::new();
    let mut task = client.begin("http://h/data", None);
    assert!(task.destination.is_none());
    assert!(matches!(
        task.after_attempt(failure("x")),
        DownloadStep::Retry { attempt: 2, delay_secs: 1 }
    ));
    assert!(matches!(
        task.after_attempt(failure("y")),
        DownloadStep::Retry { attempt: 3, delay_secs: 2 }
    ));
    match task.after_attempt(failure("z")) {
        DownloadStep::Failed(RezToolsError::ConfigError(m)) => assert_eq!(
            m,
            "Failed to download http://h/data after 3 attempts: Configuration error: z"
        ),
        other => panic!("unexpected step {:?}", other),
    }
}

#[test]
fn success_ends_the_download() {
    let client = DownloadClient::new();
    let mut task = client.begin("http://h/data", Some("/d"));
    assert!(matches!(task.after_attempt(Ok(())), DownloadStep::Done));
    assert_eq!(task.attempt_count, 1);
    let mut second = client.begin("http://h/data", Some("/d"));
    assert!(matches!(second.after_attempt(failure("x")), DownloadStep::Retry { .. }));
    assert!(matches!(second.after_attempt(Ok(())), DownloadStep::Done));
    assert_eq!(second.attempt_count, 2);
}

#[test]
fn single_attempt_client_fails_at_once_with_attempt_count() {
    let client = DownloadClient { max_retries: 1, timeout_secs: 5 };
    let mut task = client.begin("u", Some("d"));
    match task.after_attempt(failure("e")) {
        DownloadStep::Failed(e) => assert_eq!(
            e.to_string(),
            "Configuration error: Failed to download u after 1 attempts: Configuration error: e"
        ),
        other => panic!("unexpected step {:?}", other),
    }
    let twelve = DownloadClient { max_retries: 12, timeout_secs: 5 };
    let mut long = twelve.begin("u", Some("d"));
    let mut waited = 0u64;
    let mut attempts = 1;
    loop {
        match long.after_attempt(failure("e")) {
            DownloadStep::Retry { attempt, delay_secs } => {
                attempts += 1;
                assert_eq!(attempt, attempts);
                waited += delay_secs;
            }
            DownloadStep::Failed(e) => {
                assert!(e.to_string().contains("after 12 attempts"));
                break;
            }
            DownloadStep::Done => panic!("no attempt succeeded"),
        }
    }
    assert_eq!(attempts, 12);
    assert_eq!(waited, (1u64 << 11) - 1);
}

#[test]
fn success_statuses_are_the_two_hundreds() {
    assert!(!status_is_success(199));
    assert!(status_is_success(200));
    assert!(status_is_success(204));
    assert!(status_is_success(299));
    assert!(!status_is_success(300));
    assert!(!status_is_success(404));
    assert!(!status_is_success(0));
}

#[test]
fn http_error_shows_status_and_reason() {
    assert_eq!(
        http_error("404 Not Found", Some("Not Found")).to_string(),
        "Configuration error: HTTP error 404 Not Found: Not Found"
    );
    assert_eq!(
        http_error("599", None).to_string(),
        "Configuration error: HTTP error 599: Unknown error"
    );
}

#[test]
fn test_download_bytes_invalid_url() {
    // Every attempt at an address that cannot be reached fails.
    let client = DownloadClient::new();
    let url = "http://invalid-url-that-does-not-exist.com/data";
    let mut task = client.begin(url, None);
    let mut result = Ok(());
    loop {
        match task.after_attempt(failure("Request failed: dns error")) {
            DownloadStep::Retry { .. } => {}
            DownloadStep::Failed(e) => {
                result = Err(e);
                break;
            }
            DownloadStep::Done => break,
        }
    }
    // Should fail with network error
    assert!(result.is_err());
    let message = result.unwrap_err().to_string();
    assert!(message.contains(url));
    assert!(message.contains("after 3 attempts"));
}

#[test]
fn temporary_file_is_another_file_beside_the_destination() {
    assert_eq!(temp_path_for("/d/python.tar.gz"), "/d/python.tar.gz.tmp");
    assert_eq!(temp_path_for("/d/x.tmp"), "/d/x.tmp.tmp");
    assert_eq!(temp_path_for("file"), "file.tmp");
    assert_eq!(temp_path_for("C:\\d\\f.zip"), "C:\\d\\f.zip.tmp");
    for destination in ["/d/x.tmp", "x", "/a.b/c", ""] {
        let temp = temp_path_for(destination);
        assert_ne!(temp, destination);
        let dir = |p: &str| p.rfind('/').map(|i| p[..=i].to_string());
        assert_eq!(dir(&temp), dir(destination));
    }
}
