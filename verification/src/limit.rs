//! Quota tracking: a value measured against a maximum, with messages sent
//! out as the value crosses the warning thresholds.
//!
//! Which warning a value deserves is the pure, fully specified judgement
//! [`quota_level`], computed by [`check_quota`] and put into words by
//! [`warning_text`]; the tracker merely records the value and forwards the
//! one due warning to its messenger.

use vstd::prelude::*;

verus! {

/// A destination for outgoing messages. A messenger takes only a shared
/// reference to itself, so an implementation that records what was sent
/// needs interior mutability of its own. The trait promises nothing of
/// `send`, so no caller's contract can speak of what a messenger did.
pub trait Messenger {
    /// Send one message.
    fn send(&self, msg: &str);
}

/// How gravely a value stands against its quota.
#[derive(Debug, PartialEq, Eq, Structural, Copy, Clone)]
pub enum QuotaLevel {
    /// The whole quota is reached or passed.
    OverQuota,
    /// Nine tenths of the quota are reached.
    NearlyExhausted,
    /// Three quarters of the quota are reached.
    ThreeQuartersUsed,
}

/// The warning due for `value` against `max`: the quota itself reached,
/// nine tenths of it, three quarters of it, or — below all thresholds —
/// none. A zero value against a zero quota admits no comparison at all,
/// while any positive value exceeds an empty quota.
pub open spec fn quota_level(value: int, max: int) -> Option<QuotaLevel> {
    if max == 0 && value == 0 {
        None
    } else if value >= max {
        Some(QuotaLevel::OverQuota)
    } else if 10 * value >= 9 * max {
        Some(QuotaLevel::NearlyExhausted)
    } else if 4 * value >= 3 * max {
        Some(QuotaLevel::ThreeQuartersUsed)
    } else {
        None
    }
}

/// The warning due for `value` against `max`: exactly [`quota_level`].
pub fn check_quota(value: usize, max: usize) -> (r: Option<QuotaLevel>)
    ensures
        r == quota_level(value as int, max as int),
{
    if max == 0 && value == 0 {
        None
    } else if value >= max {
        Some(QuotaLevel::OverQuota)
    } else if (value as u128) * 10 >= (max as u128) * 9 {
        Some(QuotaLevel::NearlyExhausted)
    } else if (value as u128) * 4 >= (max as u128) * 3 {
        Some(QuotaLevel::ThreeQuartersUsed)
    } else {
        None
    }
}

/// The message sent for each warning level.
pub fn warning_text(level: QuotaLevel) -> (msg: &'static str)
    ensures
        msg@ == match level {
            QuotaLevel::OverQuota => "Error: You are over your quota!"@,
            QuotaLevel::NearlyExhausted => "Urgent warning: You've used up over 90% of your quota!"@,
            QuotaLevel::ThreeQuartersUsed => "Warning: You've used up over 75% of your quota!"@,
        },
{
    match level {
        QuotaLevel::OverQuota => "Error: You are over your quota!",
        QuotaLevel::NearlyExhausted => "Urgent warning: You've used up over 90% of your quota!",
        QuotaLevel::ThreeQuartersUsed => "Warning: You've used up over 75% of your quota!",
    }
}

/// Watches a value against a maximum and warns its messenger as the value
/// approaches and passes the quota.
pub struct LimitTracker<'a, T: Messenger> {
    messenger: &'a T,
    value: usize,
    max: usize,
}

impl<'a, T> LimitTracker<'a, T> where T: Messenger {
    /// The messenger this tracker warns.
    pub closed spec fn messenger(&self) -> &'a T {
        self.messenger
    }

    /// The value most recently set.
    pub closed spec fn value(&self) -> usize {
        self.value
    }

    /// The quota measured against.
    pub closed spec fn max(&self) -> usize {
        self.max
    }

    /// A tracker warning the given messenger about the given quota,
    /// starting at zero. Nothing is sent during construction.
    pub fn new(messenger: &'a T, max: usize) -> (t: LimitTracker<'a, T>)
        ensures
            t.messenger() == messenger,
            t.value() == 0,
            t.max() == max,
    {
        LimitTracker { messenger, value: 0, max }
    }

    /// Record a new value, and send the messenger the one warning that
    /// [`quota_level`] assigns it — the text of [`warning_text`] — or
    /// nothing when the value stands below every threshold. That exactly
    /// this send happens cannot be stated here: `Messenger::send` carries
    /// no specification an `ensures` could build on.
    pub fn set_value(&mut self, value: usize)
        ensures
            final(self).value() == value,
            final(self).max() == old(self).max(),
            final(self).messenger() == old(self).messenger(),
    {
        self.value = value;

        match check_quota(value, self.max) {
            Some(level) => self.messenger.send(warning_text(level)),
            None => {},
        }
    }
}

} // verus!
