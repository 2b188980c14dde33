use latera_rust::file_watcher::pipeline::{process_path, process_paths};
use latera_rust::file_watcher::{
    is_create_file_event, make_internal_file_event, now_ms, observe, Candidate, ChangeKind,
    CreateKind, Engine, InternalFileEvent, Outcome, Worker, WorkerInput, WorkerPhase,
};

fn candidate(path: &str, name: Option<&str>, regular_file: bool, seen_at: u64) -> Candidate {
    Candidate {
        path: path.to_string(),
        regular_file,
        file_name: name.map(|n| n.to_string()),
        occurred_at_ms: 1_700_000_000_000 + seen_at as i64,
        seen_at,
    }
}

fn running_worker(dir: &str, at: u64) -> Worker {
    let mut worker = Worker::new(dir.to_string());
    assert!(worker.step(WorkerInput::Subscribed { at }).is_empty());
    assert_eq!(worker.phase(), WorkerPhase::Running);
    worker
}

fn created(candidates: Vec<Candidate>) -> WorkerInput {
    WorkerInput::Notification { kind: ChangeKind::Create(CreateKind::File), candidates }
}

fn forwarded(outcomes: Vec<Outcome>) -> Vec<InternalFileEvent> {
    let mut events = Vec::new();
    for outcome in outcomes {
        if let Outcome::Forwarded(event) = outcome {
            events.push(event);
        }
    }
    events
}

#[test]
fn only_creations_are_accepted() {
    assert!(is_create_file_event(&ChangeKind::Create(CreateKind::File)));
    assert!(is_create_file_event(&ChangeKind::Create(CreateKind::Any)));
    assert!(is_create_file_event(&ChangeKind::Create(CreateKind::Folder)));
    assert!(is_create_file_event(&ChangeKind::Create(CreateKind::Other)));
    assert!(!is_create_file_event(&ChangeKind::Modify));
    assert!(!is_create_file_event(&ChangeKind::Remove));
    assert!(!is_create_file_event(&ChangeKind::Access));
    assert!(!is_create_file_event(&ChangeKind::Other));
    assert!(!is_create_file_event(&ChangeKind::Any));
}

#[test]
fn event_is_built_from_name_path_and_time() {
    let event = make_internal_file_event(candidate("/d/a.txt", Some("a.txt"), true, 7)).unwrap();
    assert_eq!(event.file_name, "a.txt");
    assert_eq!(event.full_path, "/d/a.txt");
    assert_eq!(event.occurred_at_ms, 1_700_000_000_007);
}

#[test]
fn path_without_name_gives_file_name_missing() {
    let error = make_internal_file_event(candidate("/", None, true, 0)).unwrap_err();
    assert_eq!(error.code(), "FILE_NAME_MISSING");
    assert_eq!(
        error.to_string(),
        "LateraError::FileNameMissing: Cannot determine file name for path \"/\""
    );
}

#[test]
fn observe_reads_name_and_clock() {
    let before = now_ms();
    let seen = observe("/watch/dir/metadata_test.txt".to_string(), true, 12);
    let after = now_ms();
    assert_eq!(seen.path, "/watch/dir/metadata_test.txt");
    assert_eq!(seen.file_name, Some("metadata_test.txt".to_string()));
    assert!(seen.regular_file);
    assert_eq!(seen.seen_at, 12);
    assert!(before <= seen.occurred_at_ms && seen.occurred_at_ms <= after);
    assert!(before > 1_600_000_000_000);
}

#[test]
fn observe_finds_no_name_in_a_root_or_parent_path() {
    assert_eq!(observe("/".to_string(), false, 0).file_name, None);
    assert_eq!(observe("/a/..".to_string(), true, 0).file_name, None);
    assert_eq!(observe("".to_string(), true, 0).file_name, None);
    assert_eq!(observe("/a/b/".to_string(), true, 0).file_name, Some("b".to_string()));
    assert!(!observe("/".to_string(), false, 0).regular_file);
}

#[test]
fn observe_finds_what_the_platform_calls_the_file_name() {
    for path in ["/a/b.txt", "b.txt", "/a/b/", "/a/.", "/a/..", "/", "", "a\\b", "/a//b", "./x"] {
        let expected = std::path::Path::new(path)
            .file_name()
            .map(|name| name.to_string_lossy().into_owned());
        assert_eq!(observe(path.to_string(), true, 0).file_name, expected, "{:?}", path);
    }
}

#[test]
fn directory_is_dropped_before_the_engine() {
    let mut engine = Engine::new(0);
    let outcome = process_path(&mut engine, candidate("/d/subdir", Some("subdir"), false, 5));
    assert!(matches!(outcome, Outcome::NotRegularFile));
    assert_eq!(engine.tracked_paths(), 0);
    assert_eq!(engine.window_count(), 0);
}

#[test]
fn unnamed_path_does_not_reach_the_engine() {
    let mut engine = Engine::new(0);
    let outcome = process_path(&mut engine, candidate("/", None, true, 5));
    match outcome {
        Outcome::Unnamed(error) => assert_eq!(error.code(), "FILE_NAME_MISSING"),
        other => panic!("unexpected outcome {:?}", other),
    }
    assert_eq!(engine.tracked_paths(), 0);
    assert_eq!(engine.window_count(), 0);
}

#[test]
fn batch_keeps_order_and_goes_on_after_a_failure() {
    let mut engine = Engine::new(0);
    let outcomes = process_paths(
        &mut engine,
        vec![
            candidate("/d/one.txt", Some("one.txt"), true, 10),
            candidate("/", None, true, 10),
            candidate("/d/sub", Some("sub"), false, 10),
            candidate("/d/one.txt", Some("one.txt"), true, 11),
            candidate("/d/two.txt", Some("two.txt"), true, 12),
        ],
    );
    assert_eq!(outcomes.len(), 5);
    assert!(matches!(&outcomes[0], Outcome::Forwarded(e) if e.file_name == "one.txt"));
    assert!(matches!(&outcomes[1], Outcome::Unnamed(_)));
    assert!(matches!(&outcomes[2], Outcome::NotRegularFile));
    assert!(matches!(&outcomes[3], Outcome::Duplicate));
    assert!(matches!(&outcomes[4], Outcome::Forwarded(e) if e.full_path == "/d/two.txt"));
    assert_eq!(engine.tracked_paths(), 2);
    assert_eq!(engine.window_count(), 2);
}

#[test]
fn empty_batch_changes_nothing() {
    let mut engine = Engine::new(3);
    assert!(process_paths(&mut engine, Vec::new()).is_empty());
    assert_eq!(engine.tracked_paths(), 0);
    assert_eq!(engine.window_started_at(), 3);
}

#[test]
fn batch_over_the_ceiling_drops_the_rest() {
    let mut engine = Engine::new(0);
    let mut batch = Vec::new();
    for i in 0..230 {
        let name = format!("f{}.txt", i);
        batch.push(candidate(&format!("/d/{}", name), Some(&name), true, 500));
    }
    let outcomes = process_paths(&mut engine, batch);
    for (i, outcome) in outcomes.iter().enumerate() {
        if i < 200 {
            assert!(matches!(outcome, Outcome::Forwarded(e) if e.file_name == format!("f{}.txt", i)));
        } else {
            assert!(matches!(outcome, Outcome::RateLimited));
        }
    }
}

#[test]
fn worker_starts_in_starting_and_runs_once_subscribed() {
    let mut worker = Worker::new("/watch".to_string());
    assert_eq!(worker.phase(), WorkerPhase::Starting);
    assert_eq!(worker.watch_dir(), "/watch");
    assert!(!worker.is_running());
    assert!(worker.step(WorkerInput::Subscribed { at: 100 }).is_empty());
    assert_eq!(worker.phase(), WorkerPhase::Running);
    assert!(worker.is_running());
    assert_eq!(worker.watch_dir(), "/watch");
}

#[test]
fn failed_subscription_ends_the_worker_before_it_runs() {
    let mut worker = Worker::new("/watch".to_string());
    assert!(worker.step(WorkerInput::SubscribeFailed).is_empty());
    assert_eq!(worker.phase(), WorkerPhase::Stopped);
    let outcomes = worker.step(created(vec![candidate("/watch/a.txt", Some("a.txt"), true, 1)]));
    assert!(outcomes.is_empty());
    assert!(worker.step(WorkerInput::StopRequested).is_empty());
    assert_eq!(worker.phase(), WorkerPhase::Stopped);
    assert!(worker.step(WorkerInput::Subscribed { at: 5 }).is_empty());
    assert_eq!(worker.phase(), WorkerPhase::Stopped);
}

#[test]
fn worker_that_has_not_subscribed_ignores_notifications() {
    let mut worker = Worker::new("/watch".to_string());
    let outcomes = worker.step(created(vec![candidate("/watch/a.txt", Some("a.txt"), true, 1)]));
    assert!(outcomes.is_empty());
    assert_eq!(worker.phase(), WorkerPhase::Starting);
    assert!(worker.step(WorkerInput::StopRequested).is_empty());
    assert_eq!(worker.phase(), WorkerPhase::Starting);
    assert!(!worker.wants_paths(&ChangeKind::Create(CreateKind::File)));
}

#[test]
fn quiet_intervals_and_source_errors_keep_the_worker_running() {
    let mut worker = running_worker("/watch", 0);
    assert!(worker.step(WorkerInput::Timeout).is_empty());
    assert!(worker.step(WorkerInput::SourceError).is_empty());
    assert!(worker.step(WorkerInput::Timeout).is_empty());
    assert_eq!(worker.phase(), WorkerPhase::Running);
    let events = forwarded(worker.step(created(vec![candidate("/watch/a", Some("a"), true, 1)])));
    assert_eq!(events.len(), 1);
}

#[test]
fn second_subscription_does_not_reset_a_running_worker() {
    let mut worker = running_worker("/watch", 0);
    assert_eq!(forwarded(worker.step(created(vec![candidate("/watch/a", Some("a"), true, 10)]))).len(), 1);
    assert!(worker.step(WorkerInput::Subscribed { at: 20 }).is_empty());
    assert_eq!(worker.phase(), WorkerPhase::Running);
    let outcomes = worker.step(created(vec![candidate("/watch/a", Some("a"), true, 30)]));
    assert!(matches!(&outcomes[0], Outcome::Duplicate));
}

#[test]
fn stop_request_takes_a_running_worker_to_stopping() {
    let mut worker = running_worker("/watch", 0);
    assert!(worker.step(WorkerInput::StopRequested).is_empty());
    assert_eq!(worker.phase(), WorkerPhase::Stopping);
    assert!(!worker.is_running());
    assert!(worker.step(WorkerInput::Exited).is_empty());
    assert_eq!(worker.phase(), WorkerPhase::Stopped);
}

#[test]
fn lost_source_takes_a_running_worker_to_stopping() {
    let mut worker = running_worker("/watch", 0);
    assert!(worker.step(WorkerInput::Disconnected).is_empty());
    assert_eq!(worker.phase(), WorkerPhase::Stopping);
    assert!(worker.step(WorkerInput::Exited).is_empty());
    assert_eq!(worker.phase(), WorkerPhase::Stopped);
}

#[test]
fn stopping_twice_is_harmless() {
    let mut worker = running_worker("/watch", 0);
    worker.step(WorkerInput::StopRequested);
    assert!(worker.step(WorkerInput::StopRequested).is_empty());
    assert_eq!(worker.phase(), WorkerPhase::Stopping);
    worker.step(WorkerInput::Exited);
    for _ in 0..3 {
        assert!(worker.step(WorkerInput::StopRequested).is_empty());
        assert_eq!(worker.phase(), WorkerPhase::Stopped);
    }
    assert!(worker.step(WorkerInput::Exited).is_empty());
    assert_eq!(worker.phase(), WorkerPhase::Stopped);
}

#[test]
fn nothing_is_forwarded_after_the_stop_request() {
    let mut worker = running_worker("/watch", 0);
    worker.step(WorkerInput::StopRequested);
    let outcomes = worker.step(created(vec![candidate("/watch/late.txt", Some("late.txt"), true, 5)]));
    assert!(outcomes.is_empty());
    assert!(!worker.wants_paths(&ChangeKind::Create(CreateKind::File)));
    worker.step(WorkerInput::Exited);
    let outcomes = worker.step(created(vec![candidate("/watch/late.txt", Some("late.txt"), true, 5)]));
    assert!(outcomes.is_empty());
    for input in [WorkerInput::Timeout, WorkerInput::SourceError, WorkerInput::Disconnected] {
        assert!(worker.step(input).is_empty());
        assert_eq!(worker.phase(), WorkerPhase::Stopped);
    }
}

#[test]
fn leaving_the_loop_ends_the_worker_in_any_phase() {
    let mut starting = Worker::new("/watch".to_string());
    starting.step(WorkerInput::Exited);
    assert_eq!(starting.phase(), WorkerPhase::Stopped);
    let mut running = running_worker("/watch", 0);
    running.step(WorkerInput::Exited);
    assert_eq!(running.phase(), WorkerPhase::Stopped);
}

#[test]
fn changes_other_than_creations_yield_nothing() {
    let mut worker = running_worker("/watch", 0);
    for kind in [
        ChangeKind::Modify,
        ChangeKind::Remove,
        ChangeKind::Access,
        ChangeKind::Other,
        ChangeKind::Any,
    ] {
        assert!(!worker.wants_paths(&kind));
        let outcomes = worker.step(WorkerInput::Notification {
            kind,
            candidates: vec![candidate("/watch/a.txt", Some("a.txt"), true, 10)],
        });
        assert!(outcomes.is_empty(), "{:?}", kind);
    }
    // The path was never recorded: its creation still passes.
    let outcomes = worker.step(created(vec![candidate("/watch/a.txt", Some("a.txt"), true, 11)]));
    assert_eq!(forwarded(outcomes).len(), 1);
}

#[test]
fn ambiguous_creations_are_taken() {
    for kind in [CreateKind::Any, CreateKind::File, CreateKind::Folder, CreateKind::Other] {
        let mut worker = running_worker("/watch", 0);
        assert!(worker.wants_paths(&ChangeKind::Create(kind)));
        let outcomes = worker.step(WorkerInput::Notification {
            kind: ChangeKind::Create(kind),
            candidates: vec![candidate("/watch/a.txt", Some("a.txt"), true, 10)],
        });
        assert_eq!(forwarded(outcomes).len(), 1, "{:?}", kind);
    }
}

#[test]
fn new_subdirectory_produces_no_event() {
    let mut worker = running_worker("/watch", 0);
    let outcomes = worker.step(WorkerInput::Notification {
        kind: ChangeKind::Create(CreateKind::Folder),
        candidates: vec![candidate("/watch/subdir", Some("subdir"), false, 200)],
    });
    assert_eq!(outcomes.len(), 1);
    assert!(matches!(&outcomes[0], Outcome::NotRegularFile));
    let events = forwarded(outcomes);
    assert!(events.is_empty(), "Watcher should ignore directories, but got {:?}", events);
}

#[test]
fn new_file_produces_exactly_one_event() {
    let mut worker = running_worker("/tmp/d", 0);
    let outcomes = worker.step(created(vec![candidate("/tmp/d/a.txt", Some("a.txt"), true, 200)]));
    let events = forwarded(outcomes);
    assert_eq!(events.len(), 1);
    assert_eq!(events[0].file_name, "a.txt");
    assert!(events[0].full_path.ends_with("a.txt"));
    assert_eq!(events[0].full_path, "/tmp/d/a.txt");
    assert_eq!(events[0].occurred_at_ms, 1_700_000_000_200);
    assert!(forwarded(worker.step(WorkerInput::Timeout)).is_empty());
}

#[test]
fn files_created_apart_are_all_reported() {
    let mut worker = running_worker("/tmp/d", 0);
    let mut names = Vec::new();
    for (i, name) in ["file1.txt", "file2.txt", "file3.txt"].iter().enumerate() {
        let path = format!("/tmp/d/{}", name);
        let outcomes = worker.step(created(vec![candidate(&path, Some(name), true, 200 + 400 * i as u64)]));
        for event in forwarded(outcomes) {
            names.push(event.file_name);
        }
    }
    assert_eq!(names.len(), 3);
    assert!(names.contains(&"file1.txt".to_string()));
    assert!(names.contains(&"file2.txt".to_string()));
    assert!(names.contains(&"file3.txt".to_string()));
}

#[test]
fn burst_for_one_path_is_deduplicated() {
    let mut worker = running_worker("/tmp/d", 0);
    let mut events = Vec::new();
    for at in [200u64, 250, 300] {
        let outcomes = worker.step(created(vec![candidate(
            "/tmp/d/dedup_test.txt",
            Some("dedup_test.txt"),
            true,
            at,
        )]));
        events.extend(forwarded(outcomes));
    }
    assert!(events.len() <= 2, "Expected at most 2 events due to deduplication, got {}", events.len());
    assert_eq!(events.len(), 1);
    assert_eq!(events[0].occurred_at_ms, 1_700_000_000_200);
}

#[test]
fn rate_window_of_a_worker_begins_at_subscription() {
    let mut worker = running_worker("/w", 5000);
    let mut batch = Vec::new();
    for i in 0..201 {
        let name = format!("{}", i);
        batch.push(candidate(&format!("/w/{}", name), Some(&name), true, 5999));
    }
    let outcomes = worker.step(created(batch));
    assert!(matches!(&outcomes[199], Outcome::Forwarded(_)));
    assert!(matches!(&outcomes[200], Outcome::RateLimited));
    let outcomes = worker.step(created(vec![candidate("/w/next", Some("next"), true, 6000)]));
    assert!(matches!(&outcomes[0], Outcome::Forwarded(_)));
}
