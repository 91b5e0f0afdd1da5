use updater_core::checker::{CheckEvent, CheckRequest, CheckResult, Checker};
use updater_core::error::UpdateError;
use updater_core::release::{Release, UpdateInfo, VersionDescriptor};

/// What a scripted check did: the result, the waits in seconds, the number of queries.
struct Session {
    result: Option<CheckResult>,
    sleeps: Vec<u64>,
    queries: usize,
    attempts: u32,
}

fn release(version: &str) -> Release {
    Release {
        version: version.to_string(),
        notes: Some("Bug fixes".to_string()),
        published_at: Some("2024-05-01 12:00:00.0 +00:00:00".to_string()),
        download_url: "https://example.com/app.tar.gz".to_string(),
    }
}

fn transient(detail: &str) -> CheckEvent {
    CheckEvent::Failed(detail.to_string())
}

/// Runs a check the way a host does: carries out every request, answering queries from
/// `feed` in order, until the checker asks for nothing more or the feed has nothing left.
fn run_check(current: &str, client: Result<(), &str>, feed: Vec<CheckEvent>) -> Session {
    let mut checker = Checker::new(current.to_string());
    let mut feed = feed.into_iter();
    let mut sleeps = Vec::new();
    let mut queries = 0;
    while let Some(request) = checker.request() {
        let event = match request {
            CheckRequest::ResolveClient => match client {
                Ok(()) => CheckEvent::ClientReady,
                Err(detail) => CheckEvent::Failed(detail.to_string()),
            },
            CheckRequest::QueryFeed => match feed.next() {
                Some(answer) => {
                    queries += 1;
                    answer
                }
                None => break,
            },
            CheckRequest::Sleep(secs) => {
                sleeps.push(secs);
                CheckEvent::BackoffElapsed
            }
        };
        checker.step(event);
        assert!(checker.retry().attempt() <= checker.retry().max_attempts());
    }
    let attempts = checker.retry().attempt();
    Session { result: checker.into_result(), sleeps, queries, attempts }
}

#[test]
fn no_update_on_first_query_ends_without_retry() {
    let session = run_check("1.0.0", Ok(()), vec![CheckEvent::UpToDate]);
    assert_eq!(session.result, Some(CheckResult::NoUpdateAvailable));
    assert_eq!(session.sleeps, Vec::<u64>::new());
    assert_eq!(session.queries, 1);
    assert_eq!(session.attempts, 1);
}

#[test]
fn update_found_on_third_attempt_after_two_waits() {
    let session = run_check(
        "1.0.0",
        Ok(()),
        vec![transient("network"), transient("network"), CheckEvent::UpdateFound(release("2.0.0"))],
    );
    let expected = VersionDescriptor::describe("1.0.0".to_string(), release("2.0.0"));
    assert_eq!(session.result, Some(CheckResult::UpdateAvailable(expected)));
    assert_eq!(session.sleeps, vec![3, 3]);
    assert_eq!(session.queries, 3);
    assert_eq!(session.attempts, 3);
}

#[test]
fn feed_failing_on_every_attempt_gives_up_after_two_waits() {
    let session = run_check(
        "1.0.0",
        Ok(()),
        vec![transient("first"), transient("second"), transient("third"), CheckEvent::UpToDate],
    );
    assert_eq!(
        session.result,
        Some(CheckResult::CheckFailed(UpdateError::TransientFeed("third".to_string())))
    );
    assert_eq!(session.sleeps, vec![3, 3]);
    assert_eq!(session.queries, 3);
    assert_eq!(session.attempts, 3);
}

#[test]
fn success_after_any_number_of_failures_below_the_bound() {
    for failures in 0..=2usize {
        for update in [false, true] {
            let mut feed: Vec<CheckEvent> = (0..failures).map(|_| transient("down")).collect();
            feed.push(if update { CheckEvent::UpdateFound(release("9.9.9")) } else { CheckEvent::UpToDate });
            let session = run_check("1.2.3", Ok(()), feed);
            let expected = if update {
                CheckResult::UpdateAvailable(VersionDescriptor::describe(
                    "1.2.3".to_string(),
                    release("9.9.9"),
                ))
            } else {
                CheckResult::NoUpdateAvailable
            };
            assert_eq!(session.result, Some(expected));
            assert_eq!(session.sleeps, vec![3u64; failures]);
            assert_eq!(session.queries, failures + 1);
        }
    }
}

#[test]
fn no_sleep_after_the_final_attempt() {
    let mut checker = Checker::new("1.0.0".to_string());
    checker.step(CheckEvent::ClientReady);
    checker.step(transient("a"));
    assert_eq!(checker.request(), Some(CheckRequest::Sleep(3)));
    checker.step(CheckEvent::BackoffElapsed);
    checker.step(transient("b"));
    assert_eq!(checker.request(), Some(CheckRequest::Sleep(3)));
    checker.step(CheckEvent::BackoffElapsed);
    assert_eq!(checker.request(), Some(CheckRequest::QueryFeed));
    checker.step(transient("c"));
    assert_eq!(checker.request(), None);
    assert!(checker.is_finished());
}

#[test]
fn a_missing_client_is_not_retried() {
    let session = run_check("1.0.0", Err("not configured"), vec![CheckEvent::UpToDate]);
    assert_eq!(
        session.result,
        Some(CheckResult::CheckFailed(UpdateError::Initialization("not configured".to_string())))
    );
    assert_eq!(session.sleeps, Vec::<u64>::new());
    assert_eq!(session.queries, 0);
    assert_eq!(session.attempts, 0);
}

#[test]
fn a_new_checker_asks_for_the_client_first() {
    let checker = Checker::new("1.0.0".to_string());
    assert_eq!(checker.request(), Some(CheckRequest::ResolveClient));
    assert!(!checker.is_finished());
    assert_eq!(checker.retry().attempt(), 0);
    assert_eq!(checker.into_result(), None);
}

#[test]
fn an_unfinished_check_has_no_result() {
    let session = run_check("1.0.0", Ok(()), vec![transient("down")]);
    assert_eq!(session.result, None);
    assert_eq!(session.sleeps, vec![3]);
    assert_eq!(session.queries, 1);
}

#[test]
fn events_that_answer_nothing_are_ignored() {
    let mut checker = Checker::new("1.0.0".to_string());
    checker.step(CheckEvent::UpToDate);
    checker.step(CheckEvent::BackoffElapsed);
    checker.step(CheckEvent::UpdateFound(release("2.0.0")));
    assert_eq!(checker.request(), Some(CheckRequest::ResolveClient));
    checker.step(CheckEvent::ClientReady);
    checker.step(CheckEvent::ClientReady);
    checker.step(CheckEvent::BackoffElapsed);
    assert_eq!(checker.request(), Some(CheckRequest::QueryFeed));
    assert_eq!(checker.retry().attempt(), 1);
    checker.step(transient("down"));
    checker.step(transient("still down"));
    checker.step(CheckEvent::UpToDate);
    checker.step(CheckEvent::ClientReady);
    assert_eq!(checker.request(), Some(CheckRequest::Sleep(3)));
    assert_eq!(checker.retry().attempt(), 1);
}

#[test]
fn a_finished_check_stays_finished() {
    let mut checker = Checker::new("1.0.0".to_string());
    checker.step(CheckEvent::ClientReady);
    checker.step(CheckEvent::UpToDate);
    checker.step(CheckEvent::UpdateFound(release("2.0.0")));
    checker.step(transient("late"));
    checker.step(CheckEvent::BackoffElapsed);
    assert_eq!(checker.request(), None);
    assert_eq!(checker.into_result(), Some(CheckResult::NoUpdateAvailable));
}

#[test]
fn the_descriptor_pairs_the_running_version_with_the_offer() {
    let descriptor = VersionDescriptor::describe("1.4.2".to_string(), release("2.0.0"));
    assert_eq!(descriptor.current(), "1.4.2");
    assert_eq!(descriptor.candidate(), "2.0.0");
    assert_eq!(descriptor.release_notes(), Some("Bug fixes"));
    assert_eq!(descriptor.published_at(), Some("2024-05-01 12:00:00.0 +00:00:00"));
    assert_eq!(descriptor.download_location(), "https://example.com/app.tar.gz");
}

#[test]
fn versions_are_not_compared_by_the_checker() {
    // The feed calls 0.1.0 newer than 3.0.0: so be it.
    let session = run_check("3.0.0", Ok(()), vec![CheckEvent::UpdateFound(release("0.1.0"))]);
    match session.result {
        Some(CheckResult::UpdateAvailable(descriptor)) => {
            assert_eq!(descriptor.current(), "3.0.0");
            assert_eq!(descriptor.candidate(), "0.1.0");
        }
        other => panic!("unexpected result: {:?}", other),
    }
}

#[test]
fn reply_for_no_update_is_empty() {
    assert_eq!(CheckResult::NoUpdateAvailable.into_reply(), Ok(None));
}

#[test]
fn reply_for_an_update_is_its_record() {
    let descriptor = VersionDescriptor::describe("1.0.0".to_string(), release("2.0.0"));
    assert_eq!(
        CheckResult::UpdateAvailable(descriptor).into_reply(),
        Ok(Some(UpdateInfo {
            available: true,
            version: "2.0.0".to_string(),
            date: "2024-05-01 12:00:00.0 +00:00:00".to_string(),
            notes: "Bug fixes".to_string(),
            download_url: "https://example.com/app.tar.gz".to_string(),
        }))
    );
}

#[test]
fn reply_fills_in_missing_date_and_notes() {
    let bare = Release {
        version: "2.0.0".to_string(),
        notes: None,
        published_at: None,
        download_url: "https://example.com/app.tar.gz".to_string(),
    };
    let descriptor = VersionDescriptor::describe("1.0.0".to_string(), bare);
    assert_eq!(descriptor.release_notes(), None);
    assert_eq!(descriptor.published_at(), None);
    let info = descriptor.into_info();
    assert!(info.available);
    assert_eq!(info.version, "2.0.0");
    assert_eq!(info.date, "未知");
    assert_eq!(info.notes, "无更新说明");
    assert_eq!(info.download_url, "https://example.com/app.tar.gz");
}

#[test]
fn reply_for_a_failed_check_is_its_message() {
    let failed = CheckResult::CheckFailed(UpdateError::TransientFeed("timeout".to_string()));
    assert_eq!(failed.into_reply(), Err("检查更新失败: timeout".to_string()));
    let failed = CheckResult::CheckFailed(UpdateError::Initialization("no config".to_string()));
    assert_eq!(failed.into_reply(), Err("更新器初始化失败: no config".to_string()));
}

#[test]
fn replaying_two_failures_and_an_answer_gives_two_waits() {
    let mut checker = Checker::new("1.0.0".to_string());
    let waits = checker.replay(vec![
        CheckEvent::ClientReady,
        transient("first"),
        CheckEvent::BackoffElapsed,
        transient("second"),
        CheckEvent::BackoffElapsed,
        CheckEvent::UpdateFound(release("2.0.0")),
    ]);
    assert_eq!(waits, vec![3, 3]);
    assert_eq!(checker.retry().attempt(), 3);
    let expected = VersionDescriptor::describe("1.0.0".to_string(), release("2.0.0"));
    assert_eq!(checker.into_result(), Some(CheckResult::UpdateAvailable(expected)));
}

#[test]
fn replaying_three_failures_gives_two_waits_and_the_last_detail() {
    let mut checker = Checker::new("1.0.0".to_string());
    let waits = checker.replay(vec![
        CheckEvent::ClientReady,
        transient("first"),
        CheckEvent::BackoffElapsed,
        transient("second"),
        CheckEvent::BackoffElapsed,
        transient("third"),
    ]);
    assert_eq!(waits, vec![3, 3]);
    assert_eq!(checker.request(), None);
    assert_eq!(
        checker.into_result(),
        Some(CheckResult::CheckFailed(UpdateError::TransientFeed("third".to_string())))
    );
}

#[test]
fn replaying_nothing_changes_nothing() {
    let mut checker = Checker::new("1.0.0".to_string());
    assert_eq!(checker.replay(Vec::new()), Vec::<u64>::new());
    assert_eq!(checker.request(), Some(CheckRequest::ResolveClient));
}

#[test]
fn replaying_in_two_parts_is_replaying_the_whole() {
    let mut whole = Checker::new("1.0.0".to_string());
    let waits = whole.replay(vec![
        CheckEvent::ClientReady,
        transient("first"),
        CheckEvent::BackoffElapsed,
        CheckEvent::UpToDate,
    ]);
    let mut parts = Checker::new("1.0.0".to_string());
    let mut waits_in_parts = parts.replay(vec![CheckEvent::ClientReady, transient("first")]);
    waits_in_parts.extend(parts.replay(vec![CheckEvent::BackoffElapsed, CheckEvent::UpToDate]));
    assert_eq!(waits, waits_in_parts);
    assert_eq!(whole.into_result(), parts.into_result());
}

#[test]
fn a_check_is_over_after_six_outcomes_at_most() {
    let mut checker = Checker::new("1.0.0".to_string());
    let mut outcomes = 0;
    while let Some(request) = checker.request() {
        checker.step(match request {
            CheckRequest::ResolveClient => CheckEvent::ClientReady,
            CheckRequest::QueryFeed => transient("down"),
            CheckRequest::Sleep(_) => CheckEvent::BackoffElapsed,
        });
        outcomes += 1;
        assert!(outcomes <= 6);
    }
    assert_eq!(outcomes, 6);
    assert!(checker.is_finished());
}
