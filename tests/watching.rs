use yabg3ml::target::TargetPathSet;
use yabg3ml::watcher::{
    fresh_pids, matching_pids, DiscoveryEvent, Next, ProcessEntry, ProcessWatcher, Timeout,
    WatchEvent, WatchState,
};
use yabg3ml::{react, run, watch_spec, InstanceGuard, Reaction, RunPlan, RunType};

fn paths() -> TargetPathSet {
    TargetPathSet::new("C:\\bg3\\bin\\bg3.exe".to_string(), "C:\\bg3\\bin\\bg3_dx11.exe".to_string())
        .unwrap()
}

fn entry(pid: u32, path: &str) -> ProcessEntry {
    ProcessEntry { pid, image_path: path.to_string() }
}

fn scan(processes: Vec<ProcessEntry>, elapsed_ms: u64) -> WatchEvent {
    WatchEvent::Scanned { processes, elapsed_ms }
}

#[test]
fn matching_is_an_or_over_targets() {
    let procs = vec![
        entry(1, "C:\\Windows\\explorer.exe"),
        entry(7, "c:\\BG3\\bin\\bg3.exe"),
        entry(9, "C:\\bg3\\bin\\bg3_dx11.exe"),
        entry(11, "D:\\copy\\bg3.exe"),
    ];
    assert_eq!(matching_pids(&paths(), &procs), vec![7, 9]);
}

#[test]
fn fresh_drops_seen_and_repeats() {
    assert_eq!(fresh_pids(&vec![3, 5, 3, 8], &vec![8]), vec![3, 5]);
    assert_eq!(fresh_pids(&vec![], &vec![1]), Vec::<u32>::new());
}

#[test]
fn zero_polling_interval_is_refused() {
    assert!(ProcessWatcher::new(paths(), 0, Timeout::Never, false).is_none());
}

#[test]
fn oneshot_times_out_exactly_once() {
    let mut w = ProcessWatcher::new(paths(), 1000, Timeout::After { ms: 10000 }, true).unwrap();
    let s = w.step(WatchEvent::Start);
    assert!(s.deliver.is_empty());
    assert_eq!(s.next, Next::ScanAfter { ms: 0 });
    let mut delivered: Vec<DiscoveryEvent> = Vec::new();
    for t in 0..10u64 {
        let s = w.step(scan(vec![entry(1, "C:\\x\\notepad.exe")], t * 1000));
        assert_eq!(s.next, Next::ScanAfter { ms: 1000 });
        delivered.extend(s.deliver);
    }
    let s = w.step(WatchEvent::ScanFailed { elapsed_ms: 10000 });
    delivered.extend(s.deliver);
    assert_eq!(s.next, Next::Finish);
    assert_eq!(delivered, vec![DiscoveryEvent::TimedOut]);
    assert!(matches!(w.state, WatchState::TimedOut));
    let s = w.step(scan(vec![entry(5, "C:\\bg3\\bin\\bg3.exe")], 11000));
    assert!(s.deliver.is_empty());
    assert_eq!(s.next, Next::Finish);
}

#[test]
fn oneshot_resolves_first_match() {
    let mut w = ProcessWatcher::new(paths(), 1000, Timeout::After { ms: 10000 }, true).unwrap();
    w.step(WatchEvent::Start);
    let s = w.step(scan(vec![entry(40, "C:\\bg3\\bin\\bg3_dx11.exe"), entry(41, "C:\\bg3\\bin\\bg3.exe")], 2000));
    assert_eq!(s.deliver, vec![DiscoveryEvent::Found { pid: 40 }]);
    assert_eq!(s.next, Next::Finish);
    assert!(matches!(w.state, WatchState::Resolved { pid: 40 }));
}

#[test]
fn known_pid_resolves_at_once() {
    let spec = watch_spec(RunType::Injector);
    let mut w = ProcessWatcher::new(paths(), spec.polling_ms, spec.timeout, spec.oneshot).unwrap();
    w.step(WatchEvent::Start);
    let s = w.step(WatchEvent::Known { pid: 1234, elapsed_ms: 0 });
    assert_eq!(s.deliver, vec![DiscoveryEvent::Found { pid: 1234 }]);
    assert_eq!(react(s.deliver[0]), Reaction::Inject { pid: 1234 });
}

#[test]
fn persistent_reports_each_start_once() {
    let mut w = ProcessWatcher::new(paths(), 2000, Timeout::Never, false).unwrap();
    w.step(WatchEvent::Start);
    let s = w.step(scan(vec![], 0));
    assert!(s.deliver.is_empty());
    let s = w.step(scan(vec![entry(100, "C:\\bg3\\bin\\bg3.exe")], 2000));
    assert_eq!(s.deliver, vec![DiscoveryEvent::Found { pid: 100 }]);
    assert_eq!(s.next, Next::ScanAfter { ms: 2000 });
    assert!(matches!(w.state, WatchState::Watching { .. }));
    let s = w.step(scan(vec![entry(100, "C:\\bg3\\bin\\bg3.exe")], 4000));
    assert!(s.deliver.is_empty());
    let s = w.step(WatchEvent::ScanFailed { elapsed_ms: 6000 });
    assert!(s.deliver.is_empty());
    assert_eq!(s.next, Next::ScanAfter { ms: 2000 });
    let s = w.step(scan(vec![], 8000));
    assert!(s.deliver.is_empty());
    let s = w.step(scan(vec![entry(200, "C:\\bg3\\bin\\bg3_dx11.exe")], 1_000_000));
    assert_eq!(s.deliver, vec![DiscoveryEvent::Found { pid: 200 }]);
    let s = w.step(WatchEvent::Stop);
    assert!(s.deliver.is_empty());
    assert_eq!(s.next, Next::Finish);
    assert!(matches!(w.state, WatchState::Stopped));
}

#[test]
fn unstarted_watcher_ignores_scans() {
    let mut w = ProcessWatcher::new(paths(), 2000, Timeout::Never, false).unwrap();
    let s = w.step(scan(vec![entry(100, "C:\\bg3\\bin\\bg3.exe")], 0));
    assert!(s.deliver.is_empty());
    assert!(matches!(w.state, WatchState::Idle));
}

#[test]
fn second_instance_does_nothing() {
    assert!(matches!(run(RunType::Watcher, InstanceGuard::HeldElsewhere, paths()), RunPlan::Exit));
    assert!(matches!(run(RunType::Injector, InstanceGuard::HeldElsewhere, paths()), RunPlan::Exit));
}

#[test]
fn first_instance_gets_its_tool_parameters() {
    match run(RunType::Watcher, InstanceGuard::Acquired, paths()) {
        RunPlan::Watch { watcher, tray } => {
            assert!(tray);
            assert_eq!(watcher.spec.polling_ms, 2000);
            assert_eq!(watcher.spec.timeout, Timeout::Never);
            assert!(!watcher.spec.oneshot);
        }
        RunPlan::Exit => panic!("first instance exited"),
    }
    match run(RunType::Injector, InstanceGuard::Acquired, paths()) {
        RunPlan::Watch { watcher, tray } => {
            assert!(!tray);
            assert_eq!(watcher.spec.polling_ms, 1000);
            assert_eq!(watcher.spec.timeout, Timeout::After { ms: 10000 });
            assert!(watcher.spec.oneshot);
        }
        RunPlan::Exit => panic!("first instance exited"),
    }
    assert_eq!(react(DiscoveryEvent::TimedOut), Reaction::ReportNotFound);
}
