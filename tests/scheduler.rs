use maildog::scheduler::{Scheduler, Trigger, SYNC_INTERVAL_SECS};

#[test]
fn startup_runs_a_pass() {
    let s = Scheduler::startup();
    assert!(s.running);
    assert!(!s.pending);
}

#[test]
fn trigger_when_idle_starts_a_pass() {
    let mut s = Scheduler::startup();
    assert!(!s.on_pass_finished());
    assert!(s.on_trigger(Trigger::Tick));
    assert!(s.running);
}

#[test]
fn triggers_during_a_pass_coalesce_into_one() {
    let mut s = Scheduler::startup();
    assert!(!s.on_trigger(Trigger::SyncNow));
    assert!(!s.on_trigger(Trigger::Tick));
    assert!(!s.on_trigger(Trigger::SyncNow));
    assert!(s.on_pass_finished());
    assert!(s.running);
    assert!(!s.on_pass_finished());
    assert!(!s.running);
}

#[test]
fn interval_is_five_minutes() {
    assert_eq!(SYNC_INTERVAL_SECS, 300);
}
