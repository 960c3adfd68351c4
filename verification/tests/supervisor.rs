use ble_sensors::router::DeviceEvent;
use ble_sensors::supervisor::{
    Action, Event, PauseCause, Phase, Supervisor, WatchdogState, DEFAULT_COOLDOWN_SECS,
    DEFAULT_WATCHDOG_SECS, POLL_INTERVAL_SECS,
};

fn scanning(timeout_secs: u64, cooldown_secs: u64, now_ms: u64) -> Supervisor {
    let mut s = Supervisor::new(timeout_secs, cooldown_secs, now_ms);
    assert_eq!(s.step(Event::SessionStarted), Action::Listen);
    s
}

#[test]
fn defaults() {
    assert_eq!(DEFAULT_WATCHDOG_SECS, 20);
    assert_eq!(DEFAULT_COOLDOWN_SECS, 5);
    assert_eq!(POLL_INTERVAL_SECS, 5);
}

#[test]
fn new_supervisor_is_starting() {
    let s = Supervisor::new(20, 5, 1234);
    assert_eq!(s.phase, Phase::Starting);
    assert_eq!(
        s.watchdog,
        WatchdogState {
            last_decode_ms: 1234,
            timeout_secs: 20,
            cooldown_secs: 5,
            restart_counter: 1
        }
    );
    assert_eq!(WatchdogState::new(20, 5, 1234), s.watchdog);
}

#[test]
fn start_failure_pauses_and_retries() {
    let mut s = Supervisor::new(20, 7, 0);
    assert_eq!(
        s.step(Event::SessionFailed),
        Action::Pause { secs: 7, cause: PauseCause::StartFailed }
    );
    assert_eq!(s.phase, Phase::Cooldown);
    assert_eq!(s.step(Event::CooldownElapsed), Action::StartSession);
    assert_eq!(s.phase, Phase::Starting);
    assert_eq!(
        s.step(Event::SessionFailed),
        Action::Pause { secs: 7, cause: PauseCause::StartFailed }
    );
    assert_eq!(s.step(Event::CooldownElapsed), Action::StartSession);
    assert_eq!(s.step(Event::SessionStarted), Action::Listen);
    assert_eq!(s.phase, Phase::Scanning);
    assert_eq!(s.watchdog.restart_counter, 1);
}

#[test]
fn notifications_are_forwarded_while_scanning() {
    let mut s = scanning(20, 5, 0);
    let before = s;
    assert_eq!(s.step(Event::DeviceAdded(42)), Action::Forward(DeviceEvent::Added(42)));
    assert_eq!(s.step(Event::DeviceRemoved(42)), Action::Forward(DeviceEvent::Removed(42)));
    assert_eq!(s.step(Event::OtherNotification), Action::Listen);
    assert_eq!(s, before);
}

#[test]
fn watchdog_restarts_only_beyond_the_timeout() {
    let mut s = scanning(20, 5, 1_000);
    let before = s;
    assert_eq!(s.step(Event::Tick { now_ms: 6_000 }), Action::Listen);
    assert_eq!(s.step(Event::Tick { now_ms: 21_000 }), Action::Listen);
    assert_eq!(s, before);
    assert_eq!(
        s.step(Event::Tick { now_ms: 21_001 }),
        Action::Pause {
            secs: 5,
            cause: PauseCause::WatchdogExpired { elapsed_ms: 20_001, restart: 1 }
        }
    );
    assert_eq!(s.phase, Phase::Cooldown);
    assert_eq!(s.watchdog.restart_counter, 2);
    assert_eq!(s.watchdog.last_decode_ms, 1_000);
}

#[test]
fn one_restart_for_each_session() {
    let mut s = scanning(20, 5, 0);
    assert_eq!(
        s.step(Event::Tick { now_ms: 25_000 }),
        Action::Pause {
            secs: 5,
            cause: PauseCause::WatchdogExpired { elapsed_ms: 25_000, restart: 1 }
        }
    );
    let paused = s;
    assert_eq!(s.step(Event::Tick { now_ms: 30_000 }), Action::Ignore);
    assert_eq!(s.step(Event::Tick { now_ms: 90_000 }), Action::Ignore);
    assert_eq!(s.step(Event::DeviceAdded(1)), Action::Ignore);
    assert_eq!(s.step(Event::StreamEnded), Action::Ignore);
    assert_eq!(s, paused);
    assert_eq!(s.step(Event::CooldownElapsed), Action::StartSession);
    assert_eq!(s.step(Event::Tick { now_ms: 95_000 }), Action::Ignore);
    assert_eq!(s.watchdog.restart_counter, 2);
    assert_eq!(s.step(Event::SessionStarted), Action::Listen);
    assert_eq!(
        s.step(Event::Tick { now_ms: 100_000 }),
        Action::Pause {
            secs: 5,
            cause: PauseCause::WatchdogExpired { elapsed_ms: 100_000, restart: 2 }
        }
    );
    assert_eq!(s.watchdog.restart_counter, 3);
}

#[test]
fn decode_success_resets_the_watchdog() {
    let mut s = scanning(20, 5, 0);
    s.record_decode_success(19_000);
    assert_eq!(s.phase, Phase::Scanning);
    assert_eq!(s.watchdog.last_decode_ms, 19_000);
    assert_eq!(s.step(Event::Tick { now_ms: 39_000 }), Action::Listen);
    assert_eq!(
        s.step(Event::Tick { now_ms: 39_001 }),
        Action::Pause {
            secs: 5,
            cause: PauseCause::WatchdogExpired { elapsed_ms: 20_001, restart: 1 }
        }
    );
}

#[test]
fn stream_end_pauses_without_counting_a_restart() {
    let mut s = scanning(20, 9, 0);
    assert_eq!(
        s.step(Event::StreamEnded),
        Action::Pause { secs: 9, cause: PauseCause::StreamEnded }
    );
    assert_eq!(s.phase, Phase::Cooldown);
    assert_eq!(s.watchdog.restart_counter, 1);
    assert_eq!(s.step(Event::CooldownElapsed), Action::StartSession);
}

#[test]
fn events_out_of_phase_are_ignored() {
    let mut s = Supervisor::new(20, 5, 0);
    let before = s;
    for event in [
        Event::DeviceAdded(1),
        Event::DeviceRemoved(1),
        Event::OtherNotification,
        Event::StreamEnded,
        Event::Tick { now_ms: 1_000_000 },
        Event::CooldownElapsed,
    ] {
        assert_eq!(s.step(event), Action::Ignore);
        assert_eq!(s, before);
    }
    let mut s = scanning(20, 5, 0);
    let before = s;
    for event in [Event::SessionStarted, Event::SessionFailed, Event::CooldownElapsed] {
        assert_eq!(s.step(event), Action::Ignore);
        assert_eq!(s, before);
    }
}

#[test]
fn watchdog_elapsed_and_expiry() {
    let w = WatchdogState::new(20, 5, 10_000);
    assert_eq!(w.elapsed_ms(10_000), 0);
    assert_eq!(w.elapsed_ms(9_000), 0);
    assert_eq!(w.elapsed_ms(12_345), 2_345);
    assert!(!w.is_expired(30_000));
    assert!(w.is_expired(30_001));
    assert!(!w.is_expired(0));
    let zero = WatchdogState::new(0, 5, 10_000);
    assert!(!zero.is_expired(10_000));
    assert!(zero.is_expired(10_001));
    let huge = WatchdogState::new(u64::MAX, 5, 0);
    assert!(!huge.is_expired(u64::MAX));
    let edge = WatchdogState::new(u64::MAX / 1000, 5, 0);
    assert!(!edge.is_expired((u64::MAX / 1000) * 1000));
    assert!(edge.is_expired((u64::MAX / 1000) * 1000 + 1));
}

#[test]
fn restart_counter_starts_again_after_the_largest_value() {
    let mut s = scanning(1, 5, 0);
    s.watchdog.restart_counter = u64::MAX;
    assert_eq!(
        s.step(Event::Tick { now_ms: 5_000 }),
        Action::Pause {
            secs: 5,
            cause: PauseCause::WatchdogExpired { elapsed_ms: 5_000, restart: u64::MAX }
        }
    );
    assert_eq!(s.watchdog.restart_counter, 0);
}
