use calendar::config::Config;
use calendar::date_utils::{self, Date};
use calendar::batch::BatchRun;
use calendar::downloader::{calculate_delay, join_path, process_options, Downloader, RetryConfig};
use calendar::task::{Phase, TaskAction, TaskEvent, TaskRunner};
use calendar::ProcessResult;

fn test_config(output_dir: &str) -> Config {
    Config {
        start_date: Date::from_ymd_opt(2024, 1, 1).unwrap(),
        base_url: "https://example.com/{year}/{month:02}/{day:02}.jpg".to_string(),
        output_dir: output_dir.to_string(),
        filename_format: "{yyyy}{mm}{dd}.jpg".to_string(),
        max_concurrent: 3,
        user_agent: "Test".to_string(),
        timeout: 30,
        max_retries: 3,
        retry_delay_ms: 1000,
    }
}

#[test]
fn test_build_url() {
    let config = test_config("./images");
    let downloader = Downloader::new(&config).unwrap();
    let date = Date::from_ymd_opt(2024, 6, 15).unwrap();
    let url = downloader.build_url(&config.base_url, &date);
    assert_eq!(url, "https://example.com/2024/06/15.jpg");
}

#[test]
fn test_build_path() {
    let config = test_config("/tmp/images");
    let downloader = Downloader::new(&config).unwrap();
    let date = Date::from_ymd_opt(2024, 6, 15).unwrap();
    let path = downloader.build_path(&date);
    assert_eq!(path, "/tmp/images/2024/20240615.jpg");
}

#[test]
fn path_joining() {
    assert_eq!(join_path("/tmp/images/", "2024"), "/tmp/images/2024");
    assert_eq!(join_path("", "2024"), "2024");
    assert_eq!(join_path("out", "/abs.jpg"), "/abs.jpg");
    let downloader = Downloader::new(&test_config("")).unwrap();
    let date = Date::from_ymd_opt(2024, 6, 15).unwrap();
    assert_eq!(downloader.build_url("", &date), "20240615.jpg");
}

#[test]
fn default_retry_policy() {
    let policy = RetryConfig::default();
    assert_eq!(policy, RetryConfig { max_retries: 3, base_delay_ms: 1000, max_delay_ms: 30000, enabled: true });
    let from_config = test_config("x").retry_config();
    assert_eq!(from_config, RetryConfig { max_retries: 3, base_delay_ms: 1000, max_delay_ms: 30000, enabled: true });
}

#[test]
fn backoff_doubles_then_caps() {
    assert_eq!(calculate_delay(0, 1000, 30000), 1000);
    assert_eq!(calculate_delay(1, 1000, 30000), 2000);
    assert_eq!(calculate_delay(2, 1000, 30000), 4000);
    assert_eq!(calculate_delay(3, 1000, 30000), 8000);
    assert_eq!(calculate_delay(4, 1000, 30000), 16000);
    assert_eq!(calculate_delay(5, 1000, 30000), 30000);
    assert_eq!(calculate_delay(10, 1000, 30000), 30000);
    assert_eq!(calculate_delay(11, 1000, 30000), 30000);
    assert_eq!(calculate_delay(u32::MAX, 1000, 30000), 30000);
    assert_eq!(calculate_delay(12, 1, u64::MAX), 1024);
    assert_eq!(calculate_delay(3, u64::MAX, u64::MAX), u64::MAX);
}

fn runner(policy: RetryConfig, overwrite: bool) -> TaskRunner {
    TaskRunner::new(policy, "/out/2024/20240601.jpg".to_string(), overwrite, false)
}

#[test]
fn existing_file_is_skipped_without_request() {
    let mut r = runner(RetryConfig::default(), false);
    match r.step(TaskEvent::Checked { exists: true }) {
        TaskAction::Finish { result: ProcessResult::AlreadyExists(p), repair_metadata } => {
            assert_eq!(p, "/out/2024/20240601.jpg");
            assert!(repair_metadata);
        }
        other => panic!("unexpected {:?}", other),
    }
    assert_eq!(r.phase(), Phase::Done);
    assert!(!r.accepts(&TaskEvent::Responded { status: 200 }));

    let mut quiet = TaskRunner::new(RetryConfig::default(), "a.jpg".to_string(), false, true);
    assert!(matches!(
        quiet.step(TaskEvent::Checked { exists: true }),
        TaskAction::Finish { result: ProcessResult::AlreadyExists(_), repair_metadata: false }
    ));
}

#[test]
fn overwrite_fetches_existing_file() {
    let mut r = runner(RetryConfig::default(), true);
    assert!(matches!(r.step(TaskEvent::Checked { exists: true }), TaskAction::Send { create_dir: true }));
    assert!(matches!(r.step(TaskEvent::Responded { status: 200 }), TaskAction::ReadBody));
    assert!(matches!(r.step(TaskEvent::BodyRead { len: 10 }), TaskAction::WriteBody));
    match r.step(TaskEvent::Written) {
        TaskAction::Finish { result: ProcessResult::Downloaded(p), repair_metadata: true } => {
            assert_eq!(p, "/out/2024/20240601.jpg")
        }
        other => panic!("unexpected {:?}", other),
    }
}

#[test]
fn not_found_is_never_retried() {
    let policy = RetryConfig { max_retries: 100, base_delay_ms: 10, max_delay_ms: 100, enabled: true };
    let mut r = runner(policy, false);
    r.step(TaskEvent::Checked { exists: false });
    match r.step(TaskEvent::Responded { status: 404 }) {
        TaskAction::Finish { result: ProcessResult::Failed(m), repair_metadata: false } => {
            assert_eq!(m, "HTTP 404")
        }
        other => panic!("unexpected {:?}", other),
    }
    assert_eq!(r.attempt(), 0);
    assert_eq!(r.phase(), Phase::Done);
}

#[test]
fn retryable_failures_back_off_until_attempts_run_out() {
    let mut r = runner(RetryConfig::default(), false);
    r.step(TaskEvent::Checked { exists: false });
    let mut delays = Vec::new();
    loop {
        match r.step(TaskEvent::Responded { status: 503 }) {
            TaskAction::SendAfter { delay_ms } => delays.push(delay_ms),
            TaskAction::Finish { result: ProcessResult::Failed(m), .. } => {
                assert_eq!(m, "HTTP 503");
                break;
            }
            other => panic!("unexpected {:?}", other),
        }
    }
    assert_eq!(delays, vec![1000, 2000, 4000]);
    assert_eq!(r.attempt(), 3);
}

#[test]
fn unmatched_transport_error_is_not_retried() {
    let mut r = runner(RetryConfig::default(), false);
    r.step(TaskEvent::Checked { exists: false });
    match r.step(TaskEvent::SendFailed { message: "weird failure".to_string() }) {
        TaskAction::Finish { result: ProcessResult::Failed(m), .. } => assert_eq!(m, "weird failure"),
        other => panic!("unexpected {:?}", other),
    }
    let mut r = runner(RetryConfig::default(), false);
    r.step(TaskEvent::Checked { exists: false });
    assert!(matches!(
        r.step(TaskEvent::SendFailed { message: "Connection Refused".to_string() }),
        TaskAction::SendAfter { delay_ms: 1000 }
    ));
    assert!(matches!(r.step(TaskEvent::Responded { status: 429 }), TaskAction::SendAfter { delay_ms: 2000 }));
    assert!(matches!(r.step(TaskEvent::Responded { status: 403 }), TaskAction::Finish { .. }));
}

#[test]
fn empty_body_and_read_errors_are_retried() {
    let mut r = runner(RetryConfig::default(), false);
    r.step(TaskEvent::Checked { exists: false });
    r.step(TaskEvent::Responded { status: 200 });
    assert!(matches!(r.step(TaskEvent::BodyRead { len: 0 }), TaskAction::SendAfter { delay_ms: 1000 }));
    r.step(TaskEvent::Responded { status: 204 });
    assert!(matches!(
        r.step(TaskEvent::ReadFailed { message: "could not decode response body".to_string() }),
        TaskAction::SendAfter { delay_ms: 2000 }
    ));
    r.step(TaskEvent::Responded { status: 200 });
    r.step(TaskEvent::BodyRead { len: 5 });
    match r.step(TaskEvent::WriteFailed { message: "disk full".to_string() }) {
        TaskAction::Finish { result: ProcessResult::Failed(m), repair_metadata: false } => assert_eq!(m, "disk full"),
        other => panic!("unexpected {:?}", other),
    }
}

#[test]
fn disabled_retry_fails_on_first_error() {
    let policy = RetryConfig { max_retries: 0, base_delay_ms: 1000, max_delay_ms: 30000, enabled: false };
    let mut r = runner(policy, false);
    r.step(TaskEvent::Checked { exists: false });
    match r.step(TaskEvent::Responded { status: 500 }) {
        TaskAction::Finish { result: ProcessResult::Failed(m), .. } => assert_eq!(m, "HTTP 500"),
        other => panic!("unexpected {:?}", other),
    }
}

/// Drives one task against a simulated server that answers every request
/// with `status` and a body of `len` bytes; `exists` says whether the file is
/// already there. Returns the result and the number of requests sent.
fn drive(task: &mut TaskRunner, exists: bool, status: u16, len: usize) -> (ProcessResult, usize) {
    let mut requests = 0;
    let mut action = task.step(TaskEvent::Checked { exists });
    loop {
        action = match action {
            TaskAction::Send { .. } | TaskAction::SendAfter { .. } => {
                requests += 1;
                task.step(TaskEvent::Responded { status })
            }
            TaskAction::ReadBody => task.step(TaskEvent::BodyRead { len }),
            TaskAction::WriteBody => task.step(TaskEvent::Written),
            TaskAction::Finish { result, .. } => return (result, requests),
        };
    }
}

#[test]
fn second_run_leaves_file_alone() {
    let downloader = Downloader::new(&test_config("/out")).unwrap();
    let date = Date::from_ymd_opt(2024, 6, 1).unwrap();
    let mut first = downloader.task(&date, false, false);
    let (result, requests) = drive(&mut first, false, 200, 10);
    assert!(matches!(result, ProcessResult::Downloaded(_)));
    assert_eq!(requests, 1);
    let mut second = downloader.task(&date, false, false);
    let (result, requests) = drive(&mut second, true, 200, 10);
    match result {
        ProcessResult::AlreadyExists(p) => assert_eq!(p, "/out/2024/20240601.jpg"),
        other => panic!("unexpected {:?}", other),
    }
    assert_eq!(requests, 0);
}

fn dates(texts: &[&str]) -> Vec<Date> {
    texts.iter().map(|t| date_utils::parse_date(t).unwrap()).collect()
}

#[test]
fn three_dates_all_succeed() {
    let config = test_config("/out");
    let downloader = Downloader::new(&config).unwrap();
    let list = dates(&["2024-06-01", "2024-06-02", "2024-06-03"]);
    let mut batch = BatchRun::new(&list, 2);
    let mut running: Vec<(usize, TaskRunner)> = Vec::new();
    let mut peak = 0;
    loop {
        while let Some(i) = batch.start_next() {
            running.push((i, downloader.task(&list[i], false, false)));
        }
        peak = peak.max(batch.in_flight());
        if running.is_empty() {
            break;
        }
        // finish the most recently started task first
        let (i, mut task) = running.pop().unwrap();
        let (result, _) = drive(&mut task, false, 200, 100);
        if let ProcessResult::Downloaded(p) = &result {
            let expected = downloader.build_path(&list[i]);
            assert_eq!(p, &expected);
        }
        assert!(batch.is_running(i));
        batch.complete(i, &result);
    }
    assert!(batch.is_finished());
    assert_eq!(peak, 2);
    let stats = batch.into_stats();
    assert_eq!(stats.total, 3);
    assert_eq!(stats.succeeded, 3);
    assert_eq!(stats.failed, 0);
    assert_eq!(stats.skipped, 0);
    assert_eq!(stats.success_rate_basis_points(), 10000);
    assert_eq!(stats.succeeded + stats.failed + stats.skipped, stats.total);
    let mut recorded = stats.succeeded_dates.clone();
    recorded.sort();
    assert_eq!(recorded, vec!["2024-06-01", "2024-06-02", "2024-06-03"]);
    let latest = stats.latest_success_date().unwrap();
    assert_eq!(date_utils::format_date(&latest), "2024-06-03");
}

#[test]
fn one_date_not_found_is_recorded_and_batch_goes_on() {
    let downloader = Downloader::new(&test_config("/out")).unwrap();
    let list = dates(&["2024-06-01", "2024-06-02", "2024-06-03"]);
    let mut batch = BatchRun::new(&list, 2);
    while !batch.is_finished() {
        let mut started = Vec::new();
        while let Some(i) = batch.start_next() {
            started.push(i);
        }
        for i in started {
            let status = if i == 1 { 404 } else { 200 };
            let mut task = downloader.task(&list[i], false, false);
            let (result, requests) = drive(&mut task, false, status, 100);
            if i == 1 {
                assert_eq!(requests, 1);
            }
            batch.complete(i, &result);
        }
    }
    let stats = batch.stats();
    assert_eq!(stats.failed, 1);
    assert_eq!(stats.succeeded, 2);
    assert_eq!(stats.failed_dates, vec!["2024-06-02".to_string()]);
    assert_eq!(stats.succeeded + stats.failed + stats.skipped, stats.total);
}

#[test]
fn admission_never_exceeds_the_limit() {
    let list = dates(&["2024-06-01", "2024-06-02", "2024-06-03", "2024-06-04", "2024-06-05"]);
    for limit in 1..=6usize {
        let mut batch = BatchRun::new(&list, limit);
        let mut active: Vec<usize> = Vec::new();
        let mut order = Vec::new();
        loop {
            while let Some(i) = batch.start_next() {
                active.push(i);
                order.push(i);
                assert!(active.len() <= limit);
                assert!(batch.in_flight() <= limit);
            }
            if active.is_empty() {
                break;
            }
            let i = active.remove(0);
            batch.complete(i, &ProcessResult::AlreadyExists("x".to_string()));
        }
        assert_eq!(order, vec![0, 1, 2, 3, 4]);
        assert_eq!(batch.stats().skipped, 5);
    }
}

#[test]
fn stopped_batch_admits_nothing_more() {
    let list = dates(&["2024-06-01", "2024-06-02", "2024-06-03"]);
    let mut batch = BatchRun::new(&list, 1);
    let i = batch.start_next().unwrap();
    batch.stop();
    assert!(batch.start_next().is_none());
    assert!(!batch.is_finished());
    batch.abandon(i);
    assert!(batch.is_finished());
    let stats = batch.into_stats();
    assert_eq!(stats.total, 3);
    assert_eq!(stats.succeeded + stats.failed + stats.skipped, 0);
}

#[test]
fn process_runs_one_at_a_time() {
    assert_eq!(process_options(true), (1, true));
    assert_eq!(process_options(false), (1, false));
}
