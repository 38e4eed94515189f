use spipe::watcher::{ShutdownFlag, WatcherState};

#[test]
fn flag_starts_clear_and_stays_raised() {
    let mut flag = ShutdownFlag::new();
    assert!(!flag.raised);
    flag.raise();
    assert!(flag.raised);
    // A second signal changes nothing: the flag is never reset.
    flag.raise();
    assert!(flag.raised);
}

#[test]
fn armed_watcher_keeps_polling_while_the_flag_is_clear() {
    let w = WatcherState::Idle.arm();
    assert_eq!(w, WatcherState::Armed);
    let (w, exit_now) = w.poll(false);
    assert!(!exit_now);
    assert_eq!(w, WatcherState::Armed);
    let (w, exit_now) = w.poll(false);
    assert!(!exit_now);
    assert_eq!(w, WatcherState::Armed);
}

#[test]
fn a_raised_flag_forces_exit_within_one_poll() {
    // Both copy loops may stay blocked in reads that never return; the
    // watcher's very next poll after the signal orders termination.
    let mut flag = ShutdownFlag::new();
    let w = WatcherState::Idle.arm();
    let (w, exit_now) = w.poll(flag.raised);
    assert!(!exit_now);
    flag.raise();
    let (w, exit_now) = w.poll(flag.raised);
    assert!(exit_now);
    assert_eq!(w, WatcherState::Exited);
}

#[test]
fn a_triggered_watcher_exits_on_its_next_step() {
    let (w, exit_now) = WatcherState::Triggered.poll(true);
    assert!(exit_now);
    assert_eq!(w, WatcherState::Exited);
    let (w, exit_now) = WatcherState::Triggered.poll(false);
    assert!(exit_now);
    assert_eq!(w, WatcherState::Exited);
}
