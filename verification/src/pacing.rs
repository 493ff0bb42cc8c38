//! The pacing gate: the least interval between two requests, which depends on
//! the method, and how long a request has to wait for it.
//!
//! Time is a count of milliseconds on a clock of the caller's choice that
//! never runs backwards. A pacing gate reads no clock and never sleeps: it is
//! told the time and says how long to wait.

use crate::text::{parse_u64, parsed_u64, str_equal};
use vstd::prelude::*;

verus! {

/// The interval for bundle submission and status queries where none is
/// configured: none, they are on the critical path.
pub const DEFAULT_SUBMISSION_INTERVAL_MS: u64 = 0;

/// The interval for the tip-accounts lookup where none is configured.
pub const DEFAULT_TIP_ACCOUNTS_INTERVAL_MS: u64 = 1200;

/// The interval for every other method where none is configured.
pub const DEFAULT_OTHER_INTERVAL_MS: u64 = 250;

/// How long before its creation a new gate takes the last request to have
/// been.
pub const INITIAL_IDLE_MS: u64 = 10000;

/// The three groups of methods that are paced alike.
#[derive(Clone, Copy, Debug, PartialEq, Eq, Structural)]
pub enum MethodClass {
    /// `sendBundle` and `getBundleStatuses`.
    Submission,
    /// `getTipAccounts`.
    TipAccounts,
    /// Every other method, the tip-floor fetch among them.
    Other,
}

/// The configured intervals, each as the text of its setting, where it is
/// set. A text that is no decimal number counts as not set.
#[derive(Clone, Debug, PartialEq, Eq)]
pub struct IntervalOverrides {
    pub submission: Option<String>,
    pub tip_accounts: Option<String>,
    pub other: Option<String>,
}

/// The group that a method belongs to.
pub open spec fn method_class(method: Seq<char>) -> MethodClass {
    if method == "sendBundle"@ || method == "getBundleStatuses"@ {
        MethodClass::Submission
    } else if method == "getTipAccounts"@ {
        MethodClass::TipAccounts
    } else {
        MethodClass::Other
    }
}

/// The interval of a group where none is configured.
pub open spec fn default_interval_ms(class: MethodClass) -> u64 {
    match class {
        MethodClass::Submission => DEFAULT_SUBMISSION_INTERVAL_MS,
        MethodClass::TipAccounts => DEFAULT_TIP_ACCOUNTS_INTERVAL_MS,
        MethodClass::Other => DEFAULT_OTHER_INTERVAL_MS,
    }
}

/// The interval that a setting asks for, where it is set to a decimal number.
pub open spec fn configured_ms(setting: Option<String>) -> Option<u64> {
    match setting {
        Some(text) => parsed_u64(text@),
        None => None,
    }
}

impl IntervalOverrides {
    /// The setting for a group.
    pub open spec fn setting(self, class: MethodClass) -> Option<String> {
        match class {
            MethodClass::Submission => self.submission,
            MethodClass::TipAccounts => self.tip_accounts,
            MethodClass::Other => self.other,
        }
    }
}

/// The least interval before a request of the given method: the configured
/// one for the method's group, else the group's default.
pub open spec fn min_interval_ms(method: Seq<char>, overrides: IntervalOverrides) -> u64 {
    let class = method_class(method);
    match configured_ms(overrides.setting(class)) {
        Some(ms) => ms,
        None => default_interval_ms(class),
    }
}

/// How long a request has to wait at time `now_ms` so that `interval_ms` has
/// passed since the last request at `last_ms`. Nothing where the interval is
/// zero.
pub open spec fn required_wait(last_ms: u64, now_ms: u64, interval_ms: u64) -> nat {
    if interval_ms > 0 && last_ms + interval_ms > now_ms {
        (last_ms + interval_ms - now_ms) as nat
    } else {
        0
    }
}

/// The wait as a count that fits: the most that a `u64` holds where the wait
/// is longer than that.
pub open spec fn throttle_wait(last_ms: u64, now_ms: u64, interval_ms: u64) -> u64 {
    if required_wait(last_ms, now_ms, interval_ms) <= u64::MAX {
        required_wait(last_ms, now_ms, interval_ms) as u64
    } else {
        u64::MAX
    }
}

/// The time of the last request after one that is sent at `now_ms` with the
/// given interval: that time, unless the interval is zero, with which a
/// request does not count.
pub open spec fn recorded(last_ms: u64, now_ms: u64, interval_ms: u64) -> u64 {
    if interval_ms == 0 {
        last_ms
    } else {
        now_ms
    }
}

/// Between a request and the next one that was paced with a
/// positive interval, at least that interval passes: a request that is sent
/// no earlier than the wait it was told is sent no earlier than the interval
/// after the last one.
pub proof fn lemma_gap_respects_interval(last_ms: u64, now_ms: u64, interval_ms: u64, sent_ms: int)
    requires
        interval_ms > 0,
        sent_ms >= now_ms + required_wait(last_ms, now_ms, interval_ms),
    ensures
        sent_ms - last_ms >= interval_ms,
{
}

/// Two requests that were paced one after the other with the same positive
/// interval are at least that interval apart: where the first was noted at
/// `first_sent_ms`, and the second came at `now_ms` and was sent no earlier
/// than the wait it was told, the second was sent no earlier than the
/// interval after the first. This holds up to the end of the clock, where
/// the interval after the first request is a time that a `u64` holds.
pub proof fn lemma_paced_requests_keep_interval(
    last_ms: u64,
    first_sent_ms: u64,
    interval_ms: u64,
    now_ms: u64,
    next_sent_ms: u64,
)
    requires
        interval_ms > 0,
        first_sent_ms + interval_ms <= u64::MAX,
        next_sent_ms >= now_ms + throttle_wait(
            recorded(last_ms, first_sent_ms, interval_ms),
            now_ms,
            interval_ms,
        ),
    ensures
        next_sent_ms - first_sent_ms >= interval_ms,
{
}

/// On a clock that does not run backwards no request waits longer than its
/// interval.
pub proof fn lemma_wait_at_most_interval(last_ms: u64, now_ms: u64, interval_ms: u64)
    requires
        last_ms <= now_ms,
    ensures
        required_wait(last_ms, now_ms, interval_ms) <= interval_ms,
{
}

/// The group that a method belongs to.
pub fn classify_method(method: &str) -> (class: MethodClass)
    ensures
        class == method_class(method@),
{
    if str_equal(method, "sendBundle") || str_equal(method, "getBundleStatuses") {
        MethodClass::Submission
    } else if str_equal(method, "getTipAccounts") {
        MethodClass::TipAccounts
    } else {
        MethodClass::Other
    }
}

/// The name of the environment variable that configures a group's interval.
pub fn override_variable(class: MethodClass) -> (name: &'static str)
    ensures
        name@ == match class {
            MethodClass::Submission => "JITO_SEND_BUNDLE_MIN_INTERVAL_MS"@,
            MethodClass::TipAccounts => "JITO_TIP_ACCOUNTS_MIN_INTERVAL_MS"@,
            MethodClass::Other => "JITO_OTHER_MIN_INTERVAL_MS"@,
        },
{
    match class {
        MethodClass::Submission => "JITO_SEND_BUNDLE_MIN_INTERVAL_MS",
        MethodClass::TipAccounts => "JITO_TIP_ACCOUNTS_MIN_INTERVAL_MS",
        MethodClass::Other => "JITO_OTHER_MIN_INTERVAL_MS",
    }
}

/// The least interval, in milliseconds, before a request of the given
/// method.
pub fn jito_min_interval_ms_for_method(method: &str, overrides: &IntervalOverrides) -> (ms: u64)
    ensures
        ms == min_interval_ms(method@, *overrides),
{
    let class = classify_method(method);
    let setting = match class {
        MethodClass::Submission => &overrides.submission,
        MethodClass::TipAccounts => &overrides.tip_accounts,
        MethodClass::Other => &overrides.other,
    };
    let configured = match setting {
        Some(text) => parse_u64(text.as_str()),
        None => None,
    };
    match configured {
        Some(ms) => ms,
        None => match class {
            MethodClass::Submission => DEFAULT_SUBMISSION_INTERVAL_MS,
            MethodClass::TipAccounts => DEFAULT_TIP_ACCOUNTS_INTERVAL_MS,
            MethodClass::Other => DEFAULT_OTHER_INTERVAL_MS,
        },
    }
}

/// The time of the last request that was paced, shared by all methods and
/// all endpoints.
#[derive(Debug)]
pub struct PacingGate {
    last_ms: u64,
}

impl PacingGate {
    /// The time of the last request.
    pub closed spec fn last(&self) -> u64 {
        self.last_ms
    }

    /// A gate made at `now_ms`. It takes the last request to have been ten
    /// seconds earlier, or at the clock's origin where the clock is younger.
    pub fn new(now_ms: u64) -> (gate: PacingGate)
        ensures
            gate.last() == if now_ms >= INITIAL_IDLE_MS {
                now_ms - INITIAL_IDLE_MS
            } else {
                0
            },
    {
        let last_ms: u64 = if now_ms >= INITIAL_IDLE_MS {
            now_ms - INITIAL_IDLE_MS
        } else {
            0
        };
        PacingGate { last_ms }
    }

    /// The time of the last request.
    pub fn last_request_ms(&self) -> (ms: u64)
        ensures
            ms == self.last(),
    {
        self.last_ms
    }

    /// How many milliseconds a request that arrives at `now_ms` has to wait
    /// before it may be sent; the most that a `u64` holds where the wait is
    /// longer than that.
    pub fn throttle(&self, now_ms: u64, min_interval_ms: u64) -> (wait_ms: u64)
        ensures
            wait_ms == throttle_wait(self.last(), now_ms, min_interval_ms),
    {
        if min_interval_ms == 0 {
            0
        } else if now_ms >= self.last_ms {
            let elapsed: u64 = now_ms - self.last_ms;
            if elapsed < min_interval_ms {
                min_interval_ms - elapsed
            } else {
                0
            }
        } else {
            match (self.last_ms - now_ms).checked_add(min_interval_ms) {
                Some(wait_ms) => wait_ms,
                None => u64::MAX,
            }
        }
    }

    /// Notes that the request is being sent at `now_ms`. With an interval of
    /// zero the request does not count and nothing is noted.
    pub fn record(&mut self, now_ms: u64, min_interval_ms: u64)
        ensures
            final(self).last() == recorded(old(self).last(), now_ms, min_interval_ms),
    {
        if min_interval_ms != 0 {
            self.last_ms = now_ms;
        }
    }
}

} // verus!
