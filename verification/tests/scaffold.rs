use logboot::bootstrap::{Bootstrap, Phase, StartupError};
use logboot::cli::Cli;
use logboot::filter::{init, Directive, FilterHandle, FilterState, Level};
use logboot::identity::{compose_log_dir, resolve, AppIdentity};
use logboot::panic_abort::{PanicSlot, Termination};
use logboot::queue::BoundedQueue;
use logboot::rotation::{window_of, file_name_for, RotatingSink, RotationCadence, RotationPolicy};

fn identity(org: &str, qualifier: &str, name: &str) -> AppIdentity {
    AppIdentity {
        organization: org.as_bytes().to_vec(),
        qualifier: qualifier.as_bytes().to_vec(),
        name: name.as_bytes().to_vec(),
    }
}

#[test]
fn compose_joins_nonempty_segments() {
    let root = b"/home/u/.local/share".to_vec();
    let id = identity("hack", "", "demo");
    let dir = compose_log_dir(&root, &id);
    assert_eq!(dir, b"/home/u/.local/share/hack/demo".to_vec());
}

#[test]
fn compose_skips_empty_organization_and_qualifier() {
    let root = b"/data".to_vec();
    let id = identity("", "", "demo");
    let dir = compose_log_dir(&root, &id);
    assert_eq!(dir, b"/data/demo".to_vec());
}

#[test]
fn compose_uses_all_three_segments() {
    let root = b"/data".to_vec();
    let id = identity("hack", "ink", "demo");
    let dir = compose_log_dir(&root, &id);
    assert_eq!(dir, b"/data/hack/ink/demo".to_vec());
}

#[test]
fn directory_resolution_is_deterministic() {
    let root = b"/var/data".to_vec();
    let id = identity("hack", "q", "demo");
    let first = compose_log_dir(&root, &id);
    let second = compose_log_dir(&root, &id);
    assert_eq!(first, second);
}

#[test]
fn resolve_is_deterministic_in_one_environment() {
    let id = identity("hack", "", "demo");
    let first = resolve(&id);
    let second = resolve(&id);
    match (first, second) {
        (Ok(a), Ok(b)) => {
            assert_eq!(a, b);
            assert!(!a.is_empty());
        }
        (Err(_), Err(_)) => {}
        _ => panic!("resolution changed outcome between identical calls"),
    }
}

#[test]
fn window_of_daily_and_weekly() {
    assert_eq!(window_of(0, RotationCadence::Daily), 0);
    assert_eq!(window_of(86400 * 3 + 5, RotationCadence::Daily), 3);
    assert_eq!(window_of(86399, RotationCadence::Daily), 0);
    assert_eq!(window_of(604800 * 2, RotationCadence::Weekly), 2);
    assert_eq!(window_of(604799, RotationCadence::Weekly), 0);
}

#[test]
fn file_names_carry_window_and_suffix() {
    assert_eq!(file_name_for(0, &b"log".to_vec()), b"0.log".to_vec());
    assert_eq!(file_name_for(1234, &b"log".to_vec()), b"1234.log".to_vec());
    assert_eq!(file_name_for(10, &b"txt".to_vec()), b"10.txt".to_vec());
}

fn weekly_policy(max: Option<usize>) -> RotationPolicy {
    RotationPolicy {
        cadence: RotationCadence::Weekly,
        max_retained_files: max,
        filename_suffix: b"log".to_vec(),
    }
}

#[test]
fn rotation_keeps_at_most_the_bound() {
    let mut sink = RotatingSink::open(weekly_policy(Some(2)), 0);
    for week in 1u64..10 {
        sink.advance_to(week * 604800);
        assert!(sink.files.len() <= 2);
    }
    assert_eq!(sink.files.len(), 2);
    assert_eq!(sink.files[0].window, 8);
    assert_eq!(sink.files[1].window, 9);
}

#[test]
fn rotation_evicts_oldest_first() {
    let mut sink = RotatingSink::open(weekly_policy(Some(2)), 0);
    let evicted = sink.advance_to(604800);
    assert!(evicted.is_empty());
    let evicted = sink.advance_to(2 * 604800);
    assert_eq!(evicted, vec![0]);
    let evicted = sink.advance_to(3 * 604800);
    assert_eq!(evicted, vec![1]);
}

#[test]
fn rotation_same_window_is_a_no_op() {
    let mut sink = RotatingSink::open(weekly_policy(Some(3)), 100);
    let evicted = sink.advance_to(200);
    assert!(evicted.is_empty());
    assert_eq!(sink.files.len(), 1);
}

#[test]
fn end_to_end_weekly_retention() {
    // Environment unset: the filter falls back to the default level.
    let state = init(None, Level::Info);
    assert_eq!(state.level, Level::Info);
    assert!(state.directives.is_empty());

    // organization = "hack", name = "demo".
    let id = identity("hack", "", "demo");
    let dir = compose_log_dir(&b"/data".to_vec(), &id);
    assert_eq!(dir, b"/data/hack/demo".to_vec());

    // Weekly rotation, at most 3 retained files, 5 windows of records.
    let mut sink = RotatingSink::open(weekly_policy(Some(3)), 0);
    for week in 0u64..5 {
        if week > 0 {
            sink.advance_to(week * 604800);
        }
        sink.write(format!("w{week}r1").into_bytes());
        sink.write(format!("w{week}r2").into_bytes());
    }

    // Exactly 3 files remain, named by the 3 most recent windows.
    assert_eq!(sink.files.len(), 3);
    let names: Vec<Vec<u8>> = sink
        .files
        .iter()
        .map(|f| file_name_for(f.window, &b"log".to_vec()))
        .collect();
    assert_eq!(names, vec![b"2.log".to_vec(), b"3.log".to_vec(), b"4.log".to_vec()]);

    // Each file holds only the records of its own window.
    for f in &sink.files {
        let w = f.window;
        assert_eq!(f.records.len(), 2);
        assert_eq!(f.records[0], format!("w{w}r1").into_bytes());
        assert_eq!(f.records[1], format!("w{w}r2").into_bytes());
    }
}

#[test]
fn queue_keeps_fifo_order() {
    let mut q = BoundedQueue::new(3);
    q.enqueue(b"a".to_vec());
    q.enqueue(b"b".to_vec());
    assert_eq!(q.dequeue(), Some(b"a".to_vec()));
    assert_eq!(q.dequeue(), Some(b"b".to_vec()));
    assert_eq!(q.dequeue(), None);
}

#[test]
fn queue_full_drops_oldest_and_never_refuses() {
    let mut q = BoundedQueue::new(2);
    q.enqueue(b"a".to_vec());
    q.enqueue(b"b".to_vec());
    q.enqueue(b"c".to_vec());
    assert_eq!(q.items.len(), 2);
    assert_eq!(q.dequeue(), Some(b"b".to_vec()));
    assert_eq!(q.dequeue(), Some(b"c".to_vec()));
}

#[test]
fn queue_drain_flushes_everything_in_order() {
    let mut q = BoundedQueue::new(4);
    q.enqueue(b"a".to_vec());
    q.enqueue(b"b".to_vec());
    q.enqueue(b"c".to_vec());
    let flushed = q.drain();
    assert_eq!(flushed, vec![b"a".to_vec(), b"b".to_vec(), b"c".to_vec()]);
    assert_eq!(q.dequeue(), None);
}

#[test]
fn filter_env_unset_uses_default() {
    let state = init(None, Level::Info);
    assert_eq!(state.level, Level::Info);
    assert!(state.directives.is_empty());
}

#[test]
fn filter_parses_bare_level() {
    let override_value = b"debug".to_vec();
    let state = init(Some(&override_value), Level::Info);
    assert_eq!(state.level, Level::Debug);
    assert!(state.directives.is_empty());
}

#[test]
fn filter_parses_component_directives() {
    let override_value = b"net=warn,debug,db=error".to_vec();
    let state = init(Some(&override_value), Level::Info);
    assert_eq!(state.level, Level::Debug);
    assert_eq!(state.directives.len(), 2);
    assert_eq!(state.directives[0].component, b"net".to_vec());
    assert_eq!(state.directives[0].level, Level::Warn);
    assert_eq!(state.directives[1].component, b"db".to_vec());
    assert_eq!(state.directives[1].level, Level::Error);
}

#[test]
fn filter_fallback_on_malformed_overrides() {
    let malformed: [&[u8]; 6] =
        [b"verbose", b"", b"=warn", b"net=", b"net=loud", b"info,,debug"];
    for bad in malformed {
        let state = init(Some(&bad.to_vec()), Level::Info);
        assert_eq!(state.level, Level::Info);
        assert!(state.directives.is_empty());
    }
}

#[test]
fn reload_swaps_whole_filter() {
    let mut handle = FilterHandle::init_with_reload(None, Level::Info);
    assert_eq!(handle.read().level, Level::Info);
    assert!(handle.replace(&b"trace".to_vec()).is_ok());
    assert_eq!(handle.read().level, Level::Trace);
    assert!(handle.replace(&b"net=warn,error".to_vec()).is_ok());
    assert_eq!(handle.read().level, Level::Error);
    assert_eq!(handle.read().directives.len(), 1);
}

#[test]
fn reload_malformed_leaves_filter_unchanged() {
    let mut handle = FilterHandle::init_with_reload(None, Level::Info);
    assert!(handle.replace(&b"trace".to_vec()).is_ok());
    assert!(handle.replace(&b"not a level".to_vec()).is_err());
    assert_eq!(handle.read().level, Level::Trace);
    assert!(handle.read().directives.is_empty());
}

#[test]
fn effective_level_later_override_wins() {
    let state = FilterState {
        level: Level::Info,
        directives: vec![
            Directive { component: b"net".to_vec(), level: Level::Warn },
            Directive { component: b"net".to_vec(), level: Level::Trace },
        ],
    };
    assert_eq!(state.effective_level(&b"net".to_vec()), Level::Trace);
    assert_eq!(state.effective_level(&b"db".to_vec()), Level::Info);
}

#[test]
fn enabled_compares_against_effective_level() {
    let state = FilterState {
        level: Level::Warn,
        directives: vec![Directive { component: b"net".to_vec(), level: Level::Debug }],
    };
    assert!(state.enabled(&b"net".to_vec(), Level::Debug));
    assert!(!state.enabled(&b"db".to_vec(), Level::Info));
    assert!(state.enabled(&b"db".to_vec(), Level::Error));
}

#[test]
fn default_hook_unwinds_with_diagnostic() {
    let slot = PanicSlot::new();
    let outcome = slot.on_panic();
    assert!(outcome.default_diagnostic_emitted);
    assert_eq!(outcome.termination, Termination::Unwind);
}

#[test]
fn installed_hook_aborts_after_diagnostic() {
    let slot = PanicSlot::new().install();
    let outcome = slot.on_panic();
    assert!(outcome.default_diagnostic_emitted);
    assert_eq!(outcome.termination, Termination::Abort);
}

#[test]
fn installing_twice_still_aborts_with_diagnostic() {
    let slot = PanicSlot::new().install().install();
    let outcome = slot.on_panic();
    assert!(outcome.default_diagnostic_emitted);
    assert_eq!(outcome.termination, Termination::Abort);
}

#[test]
fn bootstrap_happy_path_runs_in_order() {
    let mut b = Bootstrap::new();
    assert_eq!(b.phase, Phase::NeedDirectory);
    b.directory_resolved(&Ok(b"/data/demo".to_vec()));
    assert_eq!(b.phase, Phase::NeedSink);
    b.sink_opened(true);
    assert_eq!(b.phase, Phase::NeedFilter);
    b.filter_initialized();
    assert_eq!(b.phase, Phase::NeedSubscriber);
    b.subscriber_registered();
    assert_eq!(b.phase, Phase::NeedPanicHook);
    b.panic_hook_installed();
    assert_eq!(b.phase, Phase::Running);
    assert_eq!(b.failure(), None);
}

#[test]
fn bootstrap_directory_failure_is_fatal() {
    let mut b = Bootstrap::new();
    b.directory_resolved(&Err(
        logboot::identity::DirectoryResolutionError::PlatformRootUnavailable,
    ));
    assert_eq!(b.phase, Phase::Failed(StartupError::DirectoryResolution));
    assert_eq!(b.failure(), Some(StartupError::DirectoryResolution));
}

#[test]
fn bootstrap_sink_failure_is_fatal() {
    let mut b = Bootstrap::new();
    b.directory_resolved(&Ok(b"/data/demo".to_vec()));
    b.sink_opened(false);
    assert_eq!(b.phase, Phase::Failed(StartupError::SinkOpen));
    assert_eq!(b.failure(), Some(StartupError::SinkOpen));
}

#[test]
fn cli_default_and_run() {
    let cli = Cli::default();
    assert_eq!(cli.placeholder, b"welcome".to_vec());
    let record = cli.run();
    assert_eq!(record, cli.placeholder);
}

#[test]
fn cli_run_yields_the_placeholder() {
    let cli = Cli { placeholder: b"hello there".to_vec() };
    assert_eq!(cli.run(), b"hello there".to_vec());
}
