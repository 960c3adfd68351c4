//! The discovery loop as a state machine: what to do next on each event, and
//! the watchdog that ends a session in which nothing was decoded for too long.
//!
//! Time is a count of milliseconds on a clock that never runs backwards.

use crate::router::DeviceEvent;
use vstd::prelude::*;

verus! {

/// Watchdog timeout in seconds where none is configured.
pub const DEFAULT_WATCHDOG_SECS: u64 = 20;

/// Cooldown in seconds where none is configured.
pub const DEFAULT_COOLDOWN_SECS: u64 = 5;

/// Seconds between two looks at the watchdog while a session is listened to.
pub const POLL_INTERVAL_SECS: u64 = 5;

/// The watchdog: when a reading was last decoded, the two configured
/// durations, and the number of the next restart.
#[derive(Debug, Clone, Copy, PartialEq, Eq)]
pub struct WatchdogState {
    /// Time of the last decoded reading, in milliseconds.
    pub last_decode_ms: u64,
    /// Silence after which the session is restarted, in seconds.
    pub timeout_secs: u64,
    /// Pause before a new session is asked for, in seconds.
    pub cooldown_secs: u64,
    /// Number of the next restart; the first restart has number 1. It is for
    /// diagnostics only and starts again at 0 after the largest value.
    pub restart_counter: u64,
}

/// The counter after one more restart.
pub open spec fn counter_after(counter: u64) -> u64 {
    if counter == u64::MAX {
        0
    } else {
        (counter + 1) as u64
    }
}

impl WatchdogState {
    /// Milliseconds from the last decoded reading to `now_ms`; zero where
    /// `now_ms` lies before it.
    pub open spec fn elapsed(self, now_ms: u64) -> int {
        if now_ms >= self.last_decode_ms {
            now_ms - self.last_decode_ms
        } else {
            0
        }
    }

    /// Whether more than the timeout has passed at `now_ms` since the last
    /// decoded reading.
    pub open spec fn expired(self, now_ms: u64) -> bool {
        self.elapsed(now_ms) > self.timeout_secs * 1000
    }

    /// A watchdog whose clock starts at `now_ms`.
    pub fn new(timeout_secs: u64, cooldown_secs: u64, now_ms: u64) -> (watchdog: Self)
        ensures
            watchdog == (WatchdogState {
                last_decode_ms: now_ms,
                timeout_secs,
                cooldown_secs,
                restart_counter: 1,
            }),
    {
        WatchdogState { last_decode_ms: now_ms, timeout_secs, cooldown_secs, restart_counter: 1 }
    }

    /// Notes that a reading was decoded at `now_ms`.
    pub fn record_decode_success(&mut self, now_ms: u64)
        ensures
            *final(self) == (WatchdogState { last_decode_ms: now_ms, ..*old(self) }),
            !final(self).expired(now_ms),
    {
        self.last_decode_ms = now_ms;
    }

    /// Milliseconds since the last decoded reading.
    pub fn elapsed_ms(&self, now_ms: u64) -> (elapsed: u64)
        ensures
            elapsed == self.elapsed(now_ms),
    {
        if now_ms >= self.last_decode_ms {
            now_ms - self.last_decode_ms
        } else {
            0
        }
    }

    /// Whether the watchdog has run out at `now_ms`.
    pub fn is_expired(&self, now_ms: u64) -> (expired: bool)
        ensures
            expired == self.expired(now_ms),
    {
        let elapsed: u128 = self.elapsed_ms(now_ms) as u128;
        let limit: u128 = (self.timeout_secs as u128) * 1000;
        elapsed > limit
    }
}

/// Where the discovery loop stands.
#[derive(Debug, Clone, Copy, PartialEq, Eq)]
pub enum Phase {
    /// A new session has been asked for.
    Starting,
    /// A session runs and is listened to.
    Scanning,
    /// No session; the loop pauses before it asks for the next.
    Cooldown,
}

/// What happened outside the loop.
#[derive(Debug, Clone, Copy, PartialEq, Eq)]
pub enum Event {
    /// The session that was asked for runs.
    SessionStarted,
    /// The session that was asked for could not be started.
    SessionFailed,
    /// The session reports a new device.
    DeviceAdded(u64),
    /// The session reports that a device is gone.
    DeviceRemoved(u64),
    /// The session reports something else.
    OtherNotification,
    /// The session ended by itself.
    StreamEnded,
    /// The poll interval passed with nothing heard; `now_ms` is the time.
    Tick { now_ms: u64 },
    /// The pause is over.
    CooldownElapsed,
}

/// Why the loop pauses.
#[derive(Debug, Clone, Copy, PartialEq, Eq)]
pub enum PauseCause {
    /// The session could not be started.
    StartFailed,
    /// Nothing was decoded for `elapsed_ms`; this is restart number `restart`.
    WatchdogExpired { elapsed_ms: u64, restart: u64 },
    /// The session ended by itself.
    StreamEnded,
}

/// What the loop does next.
#[derive(Debug, Clone, Copy, PartialEq, Eq)]
pub enum Action {
    /// Ask for a new session, then report `SessionStarted` or `SessionFailed`.
    StartSession,
    /// Wait for the next notification or for the poll interval to pass.
    Listen,
    /// Hand the notification to the router, then listen on.
    Forward(DeviceEvent),
    /// Give up the session if there is one, wait `secs` seconds, then report
    /// `CooldownElapsed`.
    Pause { secs: u64, cause: PauseCause },
    /// The event does not belong to the phase: go on as before.
    Ignore,
}

/// The state of the discovery loop.
#[derive(Debug, Clone, Copy, PartialEq, Eq)]
pub struct Supervisor {
    pub phase: Phase,
    pub watchdog: WatchdogState,
}

/// `s` in the cooldown phase.
pub open spec fn cooling(s: Supervisor) -> Supervisor {
    Supervisor { phase: Phase::Cooldown, ..s }
}

/// The state and the action that follow `event` in state `s`.
pub open spec fn next(s: Supervisor, event: Event) -> (Supervisor, Action) {
    let pause = s.watchdog.cooldown_secs;
    match (s.phase, event) {
        (Phase::Starting, Event::SessionStarted) => (
            Supervisor { phase: Phase::Scanning, ..s },
            Action::Listen,
        ),
        (Phase::Starting, Event::SessionFailed) => (
            cooling(s),
            Action::Pause { secs: pause, cause: PauseCause::StartFailed },
        ),
        (Phase::Scanning, Event::DeviceAdded(address)) => (
            s,
            Action::Forward(DeviceEvent::Added(address)),
        ),
        (Phase::Scanning, Event::DeviceRemoved(address)) => (
            s,
            Action::Forward(DeviceEvent::Removed(address)),
        ),
        (Phase::Scanning, Event::OtherNotification) => (s, Action::Listen),
        (Phase::Scanning, Event::StreamEnded) => (
            cooling(s),
            Action::Pause { secs: pause, cause: PauseCause::StreamEnded },
        ),
        (Phase::Scanning, Event::Tick { now_ms }) => if s.watchdog.expired(now_ms) {
            (
                Supervisor {
                    phase: Phase::Cooldown,
                    watchdog: WatchdogState {
                        restart_counter: counter_after(s.watchdog.restart_counter),
                        ..s.watchdog
                    },
                },
                Action::Pause {
                    secs: pause,
                    cause: PauseCause::WatchdogExpired {
                        elapsed_ms: s.watchdog.elapsed(now_ms) as u64,
                        restart: s.watchdog.restart_counter,
                    },
                },
            )
        } else {
            (s, Action::Listen)
        },
        (Phase::Cooldown, Event::CooldownElapsed) => (
            Supervisor { phase: Phase::Starting, ..s },
            Action::StartSession,
        ),
        _ => (s, Action::Ignore),
    }
}

/// Whether the action is a restart by the watchdog.
pub open spec fn is_restart(action: Action) -> bool {
    action matches Action::Pause { cause: PauseCause::WatchdogExpired { .. }, .. }
}

impl Supervisor {
    /// A loop that has asked for its first session: the first thing to do is
    /// `Action::StartSession`.
    pub fn new(timeout_secs: u64, cooldown_secs: u64, now_ms: u64) -> (s: Self)
        ensures
            s.phase == Phase::Starting,
            s.watchdog == (WatchdogState {
                last_decode_ms: now_ms,
                timeout_secs,
                cooldown_secs,
                restart_counter: 1,
            }),
    {
        Supervisor {
            phase: Phase::Starting,
            watchdog: WatchdogState::new(timeout_secs, cooldown_secs, now_ms),
        }
    }

    /// Takes one event and says what to do next.
    pub fn step(&mut self, event: Event) -> (action: Action)
        ensures
            (*final(self), action) == next(*old(self), event),
    {
        let pause = self.watchdog.cooldown_secs;
        match self.phase {
            Phase::Starting => match event {
                Event::SessionStarted => {
                    self.phase = Phase::Scanning;
                    Action::Listen
                },
                Event::SessionFailed => {
                    self.phase = Phase::Cooldown;
                    Action::Pause { secs: pause, cause: PauseCause::StartFailed }
                },
                _ => Action::Ignore,
            },
            Phase::Scanning => match event {
                Event::DeviceAdded(address) => Action::Forward(DeviceEvent::Added(address)),
                Event::DeviceRemoved(address) => Action::Forward(DeviceEvent::Removed(address)),
                Event::OtherNotification => Action::Listen,
                Event::StreamEnded => {
                    self.phase = Phase::Cooldown;
                    Action::Pause { secs: pause, cause: PauseCause::StreamEnded }
                },
                Event::Tick { now_ms } => {
                    if self.watchdog.is_expired(now_ms) {
                        let restart = self.watchdog.restart_counter;
                        let elapsed_ms = self.watchdog.elapsed_ms(now_ms);
                        self.watchdog.restart_counter = if restart == u64::MAX {
                            0
                        } else {
                            restart + 1
                        };
                        self.phase = Phase::Cooldown;
                        Action::Pause {
                            secs: pause,
                            cause: PauseCause::WatchdogExpired { elapsed_ms, restart },
                        }
                    } else {
                        Action::Listen
                    }
                },
                _ => Action::Ignore,
            },
            Phase::Cooldown => match event {
                Event::CooldownElapsed => {
                    self.phase = Phase::Starting;
                    Action::StartSession
                },
                _ => Action::Ignore,
            },
        }
    }

    /// Notes that a reading was decoded at `now_ms`. Nothing else moves the
    /// watchdog's clock.
    pub fn record_decode_success(&mut self, now_ms: u64)
        ensures
            final(self).phase == old(self).phase,
            final(self).watchdog == (WatchdogState {
                last_decode_ms: now_ms,
                ..old(self).watchdog
            }),
    {
        self.watchdog.record_decode_success(now_ms);
    }
}

/// How many of `events`, taken in their order from state `s`, end in a
/// restart by the watchdog.
pub open spec fn restarts(s: Supervisor, events: Seq<Event>) -> nat
    decreases events.len(),
{
    if events.len() == 0 {
        0
    } else {
        let (after, action) = next(s, events[0]);
        let rest = restarts(after, events.skip(1));
        if is_restart(action) {
            rest + 1
        } else {
            rest
        }
    }
}

/// How many of `events` are ticks.
pub open spec fn ticks(events: Seq<Event>) -> nat
    decreases events.len(),
{
    if events.len() == 0 {
        0
    } else if events[0] is Tick {
        ticks(events.skip(1)) + 1
    } else {
        ticks(events.skip(1))
    }
}

/// How many of `events` report a started session.
pub open spec fn sessions_started(events: Seq<Event>) -> nat
    decreases events.len(),
{
    if events.len() == 0 {
        0
    } else if events[0] is SessionStarted {
        sessions_started(events.skip(1)) + 1
    } else {
        sessions_started(events.skip(1))
    }
}

/// A tick restarts the session exactly if the session is listened to and the
/// watchdog has run out. The restart counts once, starts the pause, and leaves
/// the watchdog's clock and the configured durations as they were.
pub proof fn lemma_expired_tick_restarts(s: Supervisor, now_ms: u64)
    ensures
        is_restart(next(s, Event::Tick { now_ms }).1) <==> s.phase == Phase::Scanning
            && s.watchdog.expired(now_ms),
        is_restart(next(s, Event::Tick { now_ms }).1) ==> {
            let (after, action) = next(s, Event::Tick { now_ms });
            &&& after.phase == Phase::Cooldown
            &&& after.watchdog == (WatchdogState {
                restart_counter: counter_after(s.watchdog.restart_counter),
                ..s.watchdog
            })
            &&& action == (Action::Pause {
                secs: s.watchdog.cooldown_secs,
                cause: PauseCause::WatchdogExpired {
                    elapsed_ms: s.watchdog.elapsed(now_ms) as u64,
                    restart: s.watchdog.restart_counter,
                },
            })
        },
        !is_restart(next(s, Event::Tick { now_ms }).1) ==> next(s, Event::Tick { now_ms }).0 == s,
{
}

/// Only a restart by the watchdog changes the watchdog, and it changes the
/// counter alone: no event moves the clock. Only a tick restarts.
pub proof fn lemma_watchdog_changes_only_on_restart(s: Supervisor, event: Event)
    ensures
        next(s, event).0.watchdog.last_decode_ms == s.watchdog.last_decode_ms,
        next(s, event).0.watchdog.timeout_secs == s.watchdog.timeout_secs,
        next(s, event).0.watchdog.cooldown_secs == s.watchdog.cooldown_secs,
        next(s, event).0.watchdog.restart_counter == if is_restart(next(s, event).1) {
            counter_after(s.watchdog.restart_counter)
        } else {
            s.watchdog.restart_counter
        },
        is_restart(next(s, event).1) ==> event is Tick,
{
}

/// After a restart no further event restarts again until the pause is over
/// and a new session has started: whatever comes next while the loop pauses
/// or starts is no restart.
pub proof fn lemma_no_restart_without_session(s: Supervisor, event: Event)
    requires
        s.phase != Phase::Scanning,
    ensures
        !is_restart(next(s, event).1),
        next(s, event).0.phase == Phase::Scanning ==> s.phase == Phase::Starting
            && event is SessionStarted,
{
}

/// Over any run of events the watchdog restarts at most once for each tick,
/// and at most once for each session: the one that runs at the outset, if
/// any, and those that start during the run.
pub proof fn lemma_restarts_bounded(s: Supervisor, events: Seq<Event>)
    ensures
        restarts(s, events) <= ticks(events),
        restarts(s, events) <= sessions_started(events) + if s.phase == Phase::Scanning {
            1nat
        } else {
            0nat
        },
    decreases events.len(),
{
    if events.len() > 0 {
        lemma_restarts_bounded(next(s, events[0]).0, events.skip(1));
    }
}

/// While readings are decoded in time, no tick restarts: a tick that comes no
/// later than the timeout after the last decoded reading leaves the state as
/// it is.
pub proof fn lemma_no_restart_in_time(s: Supervisor, now_ms: u64)
    requires
        now_ms - s.watchdog.last_decode_ms <= s.watchdog.timeout_secs * 1000,
    ensures
        next(s, Event::Tick { now_ms }).0 == s,
        !is_restart(next(s, Event::Tick { now_ms }).1),
{
}

} // verus!
