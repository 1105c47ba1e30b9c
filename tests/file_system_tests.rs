use std::path::{Path, PathBuf};
use std::time::Duration;
use zzz::file_system::{IoErrorKind, RetryState, RetryStep};
use zzz::{FileSystem, FileSystemError, LiteLLMConfig};

/// Runs `operation` under the retry policy against a simulated clock; returns
/// the result, the number of attempts and the milliseconds slept.
fn run_with_retry<T>(
    mut operation: impl FnMut(u64) -> Result<T, FileSystemError>,
    start_ms: u64,
) -> (Result<T, FileSystemError>, u32, u64) {
    let mut now = start_ms;
    let mut state = RetryState::start(now);
    let mut attempts = 0;
    loop {
        if state.deadline_passed(now) {
            return (Err(FileSystemError::Timeout), attempts, now - start_ms);
        }
        attempts += 1;
        match state.on_result(operation(now)) {
            RetryStep::Done(r) => return (r, attempts, now - start_ms),
            RetryStep::Wait(ms) => now += ms,
        }
    }
}

#[test]
fn test_filesystem_error_from_io_error() {
    let fs_error = FileSystemError::from(IoErrorKind::PermissionDenied);
    assert!(matches!(fs_error, FileSystemError::PermissionDenied));

    let fs_error = FileSystemError::from(IoErrorKind::WouldBlock);
    assert!(matches!(fs_error, FileSystemError::ConcurrentAccess));

    let fs_error = FileSystemError::from(IoErrorKind::NotFound);
    assert!(matches!(fs_error, FileSystemError::Io(IoErrorKind::NotFound)));
}

#[test]
fn test_filesystem_error_debug() {
    let error = FileSystemError::Timeout;
    assert_eq!(format!("{:?}", error), "Timeout");

    let error = FileSystemError::PermissionDenied;
    assert_eq!(format!("{:?}", error), "PermissionDenied");

    let error = FileSystemError::ConcurrentAccess;
    assert_eq!(format!("{:?}", error), "ConcurrentAccess");
}

#[test]
fn test_get_task_directory_path() {
    let task_id = 42;
    let expected_path = PathBuf::from("/host/.zzz/task-42");
    let actual_path = PathBuf::from(FileSystem::get_task_directory_path(task_id));
    assert_eq!(actual_path, expected_path);
}

#[test]
fn test_get_todo_list_path() {
    let task_id = 123;
    let expected_path = PathBuf::from("/host/.zzz/task-123/todo-list.md");
    let actual_path = PathBuf::from(FileSystem::get_todo_list_path(task_id));
    assert_eq!(actual_path, expected_path);
}

#[test]
fn test_get_review_path() {
    let task_id = 456;
    let expected_path = PathBuf::from("/host/.zzz/task-456/review.md");
    let actual_path = PathBuf::from(FileSystem::get_review_path(task_id));
    assert_eq!(actual_path, expected_path);
}

#[test]
fn test_get_plan_path() {
    let task_id = 789;
    let expected_path = PathBuf::from("/host/.zzz/task-789/plan.md");
    let actual_path = PathBuf::from(FileSystem::get_plan_path(task_id));
    assert_eq!(actual_path, expected_path);
}

#[test]
fn test_get_logs_dir_path() {
    let task_id = 100;
    let expected_path = PathBuf::from("/host/.zzz/task-100/logs");
    let actual_path = PathBuf::from(FileSystem::get_logs_dir_path(task_id));
    assert_eq!(actual_path, expected_path);
}

#[test]
fn test_get_overseer_log_path() {
    let task_id = 200;
    let expected_path = PathBuf::from("/host/.zzz/task-200/logs/overseer.log");
    let actual_path = PathBuf::from(FileSystem::get_overseer_log_path(task_id));
    assert_eq!(actual_path, expected_path);
}

#[test]
fn test_get_commander_log_path() {
    let task_id = 300;
    let expected_path = PathBuf::from("/host/.zzz/task-300/logs/commander.log");
    let actual_path = PathBuf::from(FileSystem::get_commander_log_path(task_id));
    assert_eq!(actual_path, expected_path);
}

#[test]
fn test_get_coordinator_log_path() {
    let task_id = 400;
    let expected_path = PathBuf::from("/host/.zzz/task-400/logs/coordinator.log");
    let actual_path = PathBuf::from(FileSystem::get_coordinator_log_path(task_id));
    assert_eq!(actual_path, expected_path);
}

#[test]
fn test_path_consistency() {
    let task_id = 500;
    let task_dir = FileSystem::get_task_directory_path(task_id);
    let logs_dir = FileSystem::get_logs_dir_path(task_id);
    let todo_path = FileSystem::get_todo_list_path(task_id);
    let review_path = FileSystem::get_review_path(task_id);
    let plan_path = FileSystem::get_plan_path(task_id);
    let overseer_log = FileSystem::get_overseer_log_path(task_id);
    let commander_log = FileSystem::get_commander_log_path(task_id);
    let coordinator_log = FileSystem::get_coordinator_log_path(task_id);

    assert!(Path::new(&todo_path).starts_with(&task_dir));
    assert!(Path::new(&review_path).starts_with(&task_dir));
    assert!(Path::new(&plan_path).starts_with(&task_dir));
    assert!(Path::new(&logs_dir).starts_with(&task_dir));

    assert!(Path::new(&overseer_log).starts_with(&logs_dir));
    assert!(Path::new(&commander_log).starts_with(&logs_dir));
    assert!(Path::new(&coordinator_log).starts_with(&logs_dir));
}

#[test]
fn test_log_overseer_creates_correct_path() {
    let task_id = 999;
    let expected_path = PathBuf::from("/host/.zzz/task-999/logs/overseer.log");
    let actual_path = PathBuf::from(FileSystem::get_overseer_log_path(task_id));
    assert_eq!(actual_path, expected_path);
}

#[test]
fn test_log_commander_creates_correct_path() {
    let task_id = 888;
    let expected_path = PathBuf::from("/host/.zzz/task-888/logs/commander.log");
    let actual_path = PathBuf::from(FileSystem::get_commander_log_path(task_id));
    assert_eq!(actual_path, expected_path);
}

#[test]
fn test_log_coordinator_creates_correct_path() {
    let task_id = 777;
    let expected_path = PathBuf::from("/host/.zzz/task-777/logs/coordinator.log");
    let actual_path = PathBuf::from(FileSystem::get_coordinator_log_path(task_id));
    assert_eq!(actual_path, expected_path);
}

#[test]
fn test_task_id_edge_cases() {
    let test_cases = [0, 1, 42, 999, 1000, 9999, u32::MAX];

    for &task_id in &test_cases {
        let task_dir = FileSystem::get_task_directory_path(task_id);
        assert!(task_dir.contains(&task_id.to_string()));

        let todo_path = FileSystem::get_todo_list_path(task_id);
        assert!(todo_path.contains(&task_id.to_string()));
        assert!(todo_path.contains("todo-list.md"));

        let log_path = FileSystem::get_overseer_log_path(task_id);
        assert!(log_path.contains(&task_id.to_string()));
        assert!(log_path.contains("overseer.log"));
    }
    assert_eq!(FileSystem::get_task_directory_path(u32::MAX), "/host/.zzz/task-4294967295");
    assert_eq!(FileSystem::get_task_directory_path(0), "/host/.zzz/task-0");
}

#[test]
fn test_filesystem_constants() {
    assert!(FileSystem::MAX_RETRIES > 0);
    assert!(FileSystem::MAX_RETRIES <= 10);

    let retry_delay = Duration::from_millis(FileSystem::RETRY_DELAY_MS);
    assert!(retry_delay >= Duration::from_millis(1));
    assert!(retry_delay <= Duration::from_secs(1));

    let operation_timeout = Duration::from_millis(FileSystem::OPERATION_TIMEOUT_MS);
    assert!(operation_timeout >= Duration::from_secs(1));
    assert!(operation_timeout <= Duration::from_secs(60));
}

#[test]
fn log_entry_format() {
    assert_eq!(FileSystem::log_entry(1_700_000_000, "Test log message"), "[1700000000] Test log message\n");
    assert_eq!(FileSystem::log_entry(0, ""), "[0] \n");
}

#[test]
fn test_with_retry_success_first_attempt() {
    let (result, attempts, slept) = run_with_retry(|_| Ok::<i32, FileSystemError>(42), 0);
    assert_eq!(result.unwrap(), 42);
    assert_eq!(attempts, 1);
    assert_eq!(slept, 0);
}

#[test]
fn test_with_retry_success_after_retries() {
    let mut calls = 0;
    let (result, attempts, slept) = run_with_retry(
        |_| {
            calls += 1;
            if calls < 3 {
                Err(FileSystemError::ConcurrentAccess)
            } else {
                Ok::<i32, FileSystemError>(99)
            }
        },
        1_000,
    );
    assert_eq!(result.unwrap(), 99);
    assert_eq!(attempts, 3);
    assert_eq!(slept, 50 + 100);
}

#[test]
fn test_with_retry_max_retries_exceeded() {
    let (result, attempts, slept) =
        run_with_retry(|_| Err::<i32, FileSystemError>(FileSystemError::ConcurrentAccess), 0);
    assert!(matches!(result, Err(FileSystemError::ConcurrentAccess)));
    assert_eq!(attempts, FileSystem::MAX_RETRIES + 1);
    assert_eq!(slept, 50 + 100 + 150);
}

#[test]
fn test_with_retry_interrupted_error_retries() {
    let mut calls = 0;
    let (result, attempts, _) = run_with_retry(
        |_| {
            calls += 1;
            if calls < 2 {
                Err(FileSystemError::Io(IoErrorKind::Interrupted))
            } else {
                Ok::<String, FileSystemError>("success".to_string())
            }
        },
        0,
    );
    assert_eq!(result.unwrap(), "success");
    assert_eq!(attempts, 2);
}

#[test]
fn test_with_retry_non_retryable_error() {
    let (result, attempts, slept) =
        run_with_retry(|_| Err::<i32, FileSystemError>(FileSystemError::PermissionDenied), 0);
    assert!(matches!(result, Err(FileSystemError::PermissionDenied)));
    assert_eq!(attempts, 1);
    assert_eq!(slept, 0);

    let (result, attempts, _) =
        run_with_retry(|_| Err::<i32, FileSystemError>(FileSystemError::Io(IoErrorKind::NotFound)), 0);
    assert!(matches!(result, Err(FileSystemError::Io(IoErrorKind::NotFound))));
    assert_eq!(attempts, 1);
}

#[test]
fn test_retry_delay_progression() {
    let mut times = Vec::new();
    let (result, _, _) = run_with_retry(
        |now| {
            times.push(now);
            if times.len() < 3 {
                Err(FileSystemError::ConcurrentAccess)
            } else {
                Ok::<i32, FileSystemError>(42)
            }
        },
        10,
    );
    assert!(result.is_ok());
    assert_eq!(times.len(), 3);
    assert_eq!(times[1] - times[0], FileSystem::RETRY_DELAY_MS);
    assert_eq!(times[2] - times[1], FileSystem::RETRY_DELAY_MS * 2);
}

#[test]
fn slow_attempts_end_in_timeout() {
    // Each attempt takes two seconds of simulated time.
    let mut elapsed = 0u64;
    let mut state = RetryState::start(0);
    let mut attempts = 0;
    let result: Result<i32, FileSystemError> = loop {
        if state.deadline_passed(elapsed) {
            break Err(FileSystemError::Timeout);
        }
        attempts += 1;
        elapsed += 2_000;
        match state.on_result::<i32>(Err(FileSystemError::ConcurrentAccess)) {
            RetryStep::Done(r) => break r,
            RetryStep::Wait(ms) => elapsed += ms,
        }
    };
    assert!(matches!(result, Err(FileSystemError::Timeout)));
    assert_eq!(attempts, 3);
}

#[test]
fn deadline_is_strictly_after_budget() {
    let state = RetryState::start(100);
    assert!(!state.deadline_passed(100));
    assert!(!state.deadline_passed(5_100));
    assert!(state.deadline_passed(5_101));
    assert!(!state.deadline_passed(50));
}

#[test]
fn retryable_classification() {
    assert!(FileSystem::is_retryable(&FileSystemError::ConcurrentAccess));
    assert!(FileSystem::is_retryable(&FileSystemError::Io(IoErrorKind::Interrupted)));
    assert!(!FileSystem::is_retryable(&FileSystemError::PermissionDenied));
    assert!(!FileSystem::is_retryable(&FileSystemError::Timeout));
    assert!(!FileSystem::is_retryable(&FileSystemError::Io(IoErrorKind::Other)));
}

#[test]
fn litellm_config_default() {
    let config = LiteLLMConfig::default();
    assert_eq!(config.api_key, "");
    assert_eq!(config.url, "https://litellm.example.in");
}
