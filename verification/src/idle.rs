//! The watch for periods without input while the user is clocked in.
//!
//! The monitor is asked at a fixed interval. It is told the reading of a steady clock, in
//! milliseconds, and the reading at which the user last touched keyboard or mouse. When the
//! user comes back after a period without input, the monitor reports how long the period
//! was and when it began.

use crate::instant::{format_rfc3339, rfc3339_text, UtcInstant};
use vstd::prelude::*;

verus! {

/// After this many seconds without input the user counts as idle.
pub const IDLE_THRESHOLD_SECS: u64 = 300;

/// After this many milliseconds without input the user counts as idle.
pub const IDLE_THRESHOLD_MS: u64 = 300_000;

/// The seconds between two checks.
pub const CHECK_INTERVAL_SECS: u64 = 10;

/// The news that the user is back after a period without input.
#[derive(Debug, Clone)]
pub struct IdleEvent {
    /// When the period began, as a date and time in RFC 3339.
    pub idle_start_time: String,
    /// How long the period was, in milliseconds.
    pub idle_duration_ms: u64,
}

/// Whether the user counts as idle at `now_ms` after the last input at `last_activity_ms`.
/// An input that is read as later than `now_ms` counts as made at `now_ms`.
pub open spec fn is_idle(now_ms: u64, last_activity_ms: u64) -> bool {
    now_ms - last_activity_ms >= IDLE_THRESHOLD_MS
}

/// The milliseconds from `since_ms` to `now_ms`; none where `since_ms` is the later.
pub open spec fn elapsed(now_ms: u64, since_ms: u64) -> u64 {
    if now_ms >= since_ms {
        (now_ms - since_ms) as u64
    } else {
        0
    }
}

/// What the monitor remembers after a check: the reading at which the running period
/// without input began, if one is running.
pub open spec fn spec_next(
    idle_since: Option<u64>,
    now_ms: u64,
    last_activity_ms: u64,
    is_clocked_in: bool,
) -> Option<u64> {
    match idle_since {
        None => if is_clocked_in && is_idle(now_ms, last_activity_ms) {
            Some(last_activity_ms)
        } else {
            None
        },
        Some(since) => if is_clocked_in && is_idle(now_ms, last_activity_ms) {
            Some(since)
        } else {
            None
        },
    }
}

/// The length of the period without input that a check finds ended: the user is clocked
/// in, was idle at the last check and is not any more.
pub open spec fn spec_ended(
    idle_since: Option<u64>,
    now_ms: u64,
    last_activity_ms: u64,
    is_clocked_in: bool,
) -> Option<u64> {
    match idle_since {
        Some(since) => if is_clocked_in && !is_idle(now_ms, last_activity_ms) {
            Some(elapsed(now_ms, since))
        } else {
            None
        },
        None => None,
    }
}

/// The text of the time `idle_ms` milliseconds before `now`; `None` where that time is out
/// of range or no calendar date stands for it.
pub open spec fn start_text(now: UtcInstant, idle_ms: u64) -> Option<Seq<char>> {
    let (secs, nanos) = now.before(idle_ms as int);
    if i64::MIN <= secs <= i64::MAX {
        rfc3339_text(secs, nanos)
    } else {
        None
    }
}

/// What an optional idle event is, as mathematical values: the text of its start and its
/// length.
pub open spec fn event_view(event: Option<IdleEvent>) -> Option<(Seq<char>, u64)> {
    match event {
        Some(e) => Some((e.idle_start_time@, e.idle_duration_ms)),
        None => None,
    }
}

/// The event for a period without input of `idle_ms` milliseconds that ends at `now`.
pub open spec fn spec_event(now: UtcInstant, idle_ms: u64) -> Option<(Seq<char>, u64)> {
    match start_text(now, idle_ms) {
        Some(text) => Some((text, idle_ms)),
        None => None,
    }
}

/// The event for a period without input of `idle_ms` milliseconds that ends at `now`;
/// `None` where the start of the period cannot be written as a date.
pub fn idle_event(now: UtcInstant, idle_ms: u64) -> (event: Option<IdleEvent>)
    ensures
        event_view(event) == spec_event(now, idle_ms),
{
    match now.minus_millis(idle_ms) {
        Some(start) => match format_rfc3339(start) {
            Some(text) => Some(IdleEvent { idle_start_time: text, idle_duration_ms: idle_ms }),
            None => None,
        },
        None => None,
    }
}

/// The watch for periods without input.
#[derive(Clone, Copy, Debug)]
pub struct IdleMonitor {
    /// The reading of the steady clock at which the running period without input began;
    /// `None` while the user is not idle or not clocked in.
    pub idle_since: Option<u64>,
}

impl IdleMonitor {
    /// A monitor that has seen no period without input.
    pub fn new() -> (monitor: IdleMonitor)
        ensures
            monitor.idle_since is None,
    {
        IdleMonitor { idle_since: None }
    }

    /// One check at the reading `now_ms` of the steady clock, with the last input at the
    /// reading `last_activity_ms`. A period without input begins at the last input once the
    /// user, clocked in, has been idle for the threshold. It ends when the user is no longer
    /// idle, and its length is returned, or when the user is no longer clocked in, and
    /// nothing is returned.
    pub fn observe(&mut self, now_ms: u64, last_activity_ms: u64, is_clocked_in: bool) -> (ended:
        Option<u64>)
        ensures
            final(self).idle_since == spec_next(
                old(self).idle_since,
                now_ms,
                last_activity_ms,
                is_clocked_in,
            ),
            ended == spec_ended(old(self).idle_since, now_ms, last_activity_ms, is_clocked_in),
    {
        let idle = now_ms >= last_activity_ms && now_ms - last_activity_ms >= IDLE_THRESHOLD_MS;
        match self.idle_since {
            None => {
                if is_clocked_in && idle {
                    self.idle_since = Some(last_activity_ms);
                }
                None
            },
            Some(since) => {
                if is_clocked_in && idle {
                    None
                } else {
                    self.idle_since = None;
                    if is_clocked_in {
                        Some(
                            if now_ms >= since {
                                now_ms - since
                            } else {
                                0
                            },
                        )
                    } else {
                        None
                    }
                }
            },
        }
    }

    /// One check, as `observe` makes it, at the time `now`: where a period without input
    /// has ended, the event that reports it.
    pub fn check(
        &mut self,
        now_ms: u64,
        last_activity_ms: u64,
        is_clocked_in: bool,
        now: UtcInstant,
    ) -> (event: Option<IdleEvent>)
        ensures
            final(self).idle_since == spec_next(
                old(self).idle_since,
                now_ms,
                last_activity_ms,
                is_clocked_in,
            ),
            event_view(event) == match spec_ended(
                old(self).idle_since,
                now_ms,
                last_activity_ms,
                is_clocked_in,
            ) {
                Some(idle_ms) => spec_event(now, idle_ms),
                None => None,
            },
    {
        match self.observe(now_ms, last_activity_ms, is_clocked_in) {
            Some(idle_ms) => idle_event(now, idle_ms),
            None => None,
        }
    }
}

} // verus!
