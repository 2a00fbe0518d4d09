use yeti::watcher::{event_concerns, ChangeEvent, ChangeKind, DebounceState, WatchHandler};

fn event(kind: ChangeKind, paths: &[&str]) -> ChangeEvent {
    ChangeEvent { kind, paths: paths.iter().map(|p| p.to_string()).collect() }
}

fn modify(path: &str) -> ChangeEvent {
    event(ChangeKind::Modified, &[path])
}

fn write_close(path: &str) -> ChangeEvent {
    event(ChangeKind::AccessClosedAfterWrite, &[path])
}

#[test]
fn a_new_watcher_is_idle() {
    let watcher = WatchHandler::new("scss");
    assert_eq!(watcher.state(), DebounceState::Idle);
    assert_eq!(watcher.extension(), "scss");
}

#[test]
fn the_first_modification_is_let_through() {
    let mut watcher = WatchHandler::new("scss");
    let signal = watcher.observe(modify("/site/scss/main.scss"));
    let signal = signal.expect("the first modification of a burst is the signal");
    assert_eq!(signal.kind, ChangeKind::Modified);
    assert_eq!(signal.paths, vec!["/site/scss/main.scss".to_string()]);
    assert_eq!(watcher.state(), DebounceState::Pending);
}

#[test]
fn a_burst_of_modifications_gives_one_signal() {
    let mut watcher = WatchHandler::new("scss");
    let mut signals = 0;
    for _ in 0..25 {
        if watcher.observe(modify("main.scss")).is_some() {
            signals += 1;
        }
    }
    assert_eq!(signals, 1);
    assert_eq!(watcher.state(), DebounceState::Pending);
}

#[test]
fn a_pending_watcher_holds_back_other_files_too() {
    let mut watcher = WatchHandler::new("scss");
    assert!(watcher.observe(modify("a.scss")).is_some());
    assert!(watcher.observe(modify("b.scss")).is_none());
    assert!(watcher.observe(event(ChangeKind::Other, &["b.scss"])).is_none());
    assert_eq!(watcher.state(), DebounceState::Pending);
}

#[test]
fn a_write_close_rearms_the_watcher() {
    let mut watcher = WatchHandler::new("scss");
    assert!(watcher.observe(modify("main.scss")).is_some());
    assert!(watcher.observe(modify("main.scss")).is_none());
    assert!(watcher.observe(write_close("main.scss")).is_none());
    assert_eq!(watcher.state(), DebounceState::Idle);
    assert!(watcher.observe(modify("main.scss")).is_some());
    assert!(watcher.observe(modify("main.scss")).is_none());
    assert_eq!(watcher.state(), DebounceState::Pending);
}

#[test]
fn a_write_close_of_any_file_rearms() {
    let mut watcher = WatchHandler::new("scss");
    assert!(watcher.observe(modify("main.scss")).is_some());
    assert!(watcher.observe(write_close("notes.txt")).is_none());
    assert_eq!(watcher.state(), DebounceState::Idle);
    assert!(watcher.observe(event(ChangeKind::AccessClosedAfterWrite, &[])).is_none());
    assert_eq!(watcher.state(), DebounceState::Idle);
}

#[test]
fn modifications_of_other_files_are_passed_over() {
    let mut watcher = WatchHandler::new("scss");
    assert!(watcher.observe(modify("main.css")).is_none());
    assert!(watcher.observe(modify("notes.txt")).is_none());
    assert!(watcher.observe(event(ChangeKind::Modified, &[])).is_none());
    assert_eq!(watcher.state(), DebounceState::Idle);
    assert!(watcher.observe(modify("main.scss")).is_some());
}

#[test]
fn other_kinds_of_events_change_nothing() {
    let mut watcher = WatchHandler::new("scss");
    assert!(watcher.observe(event(ChangeKind::Other, &["main.scss"])).is_none());
    assert_eq!(watcher.state(), DebounceState::Idle);
    assert!(watcher.observe(modify("main.scss")).is_some());
    assert!(watcher.observe(event(ChangeKind::Other, &["main.scss"])).is_none());
    assert_eq!(watcher.state(), DebounceState::Pending);
}

#[test]
fn one_watched_path_among_several_is_enough() {
    let mut watcher = WatchHandler::new("scss");
    let signal = watcher.observe(event(ChangeKind::Modified, &["a.txt", "b.scss", "c.css"]));
    let signal = signal.expect("one of the paths is watched");
    assert_eq!(signal.paths.len(), 3);
    assert_eq!(signal.paths[1], "b.scss");
}

#[test]
fn event_concerns_looks_at_every_path() {
    assert!(event_concerns(&event(ChangeKind::Other, &["x", "y.scss"]), "scss"));
    assert!(event_concerns(&event(ChangeKind::Other, &["y.scss", "x"]), "scss"));
    assert!(!event_concerns(&event(ChangeKind::Other, &["x", "y.css"]), "scss"));
    assert!(!event_concerns(&event(ChangeKind::Other, &[]), "scss"));
    assert!(!event_concerns(&event(ChangeKind::Other, &[]), ""));
    assert!(event_concerns(&event(ChangeKind::Other, &["Makefile"]), ""));
}

#[test]
fn the_watcher_follows_its_own_extension() {
    let mut watcher = WatchHandler::new("sass");
    assert!(watcher.observe(modify("main.scss")).is_none());
    assert!(watcher.observe(modify("main.sass")).is_some());
}
