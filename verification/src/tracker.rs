//! A quota tracker: it records how close a value has come to its maximum and
//! reports through a messenger when usage crosses the warning thresholds.
//!
//! The tracker only decides *when* to speak and *what* to say; actually
//! carrying the message — printing, mailing, texting — is the business of
//! whoever implements [`Messenger`].

use vstd::prelude::*;

verus! {

/// The outlet a tracker reports through. Implementations are supplied by the
/// embedding program (or by a test double); nothing is assumed about what
/// `send` does with the message.
pub trait Messenger {
    fn send(&self, msg: &str);
}

/// How loudly the tracker must speak for a given usage.
#[derive(Clone, Copy, Debug, PartialEq, Eq, Structural)]
pub enum QuotaLevel {
    /// Below three quarters of the quota: nothing to say.
    Quiet,
    /// At or above three quarters of the quota.
    Warning,
    /// At or above nine tenths of the quota.
    Urgent,
    /// At or over the whole quota.
    Exceeded,
}

/// The warning level owed for using `value` out of `max`: the highest of the
/// three thresholds — three quarters, nine tenths, the whole quota — that
/// `value / max` has reached.
pub open spec fn spec_quota_level(value: usize, max: usize) -> QuotaLevel {
    if value >= max {
        QuotaLevel::Exceeded
    } else if 10 * value >= 9 * max {
        QuotaLevel::Urgent
    } else if 4 * value >= 3 * max {
        QuotaLevel::Warning
    } else {
        QuotaLevel::Quiet
    }
}

/// Computes the warning level, comparing against the thresholds in exact
/// integer arithmetic.
pub fn quota_level(value: usize, max: usize) -> (l: QuotaLevel)
    ensures
        l == spec_quota_level(value, max),
{
    if value >= max {
        QuotaLevel::Exceeded
    } else if (value as u128) * 10 >= (max as u128) * 9 {
        QuotaLevel::Urgent
    } else if (value as u128) * 4 >= (max as u128) * 3 {
        QuotaLevel::Warning
    } else {
        QuotaLevel::Quiet
    }
}

/// Tracks a value against a fixed maximum and warns through the messenger it
/// was given as the thresholds are crossed.
pub struct LimitTracker<'a, T: Messenger> {
    messenger: &'a T,
    value: usize,
    max: usize,
}

impl<'a, T: Messenger> LimitTracker<'a, T> {
    /// The value most recently recorded.
    pub closed spec fn value_spec(&self) -> usize {
        self.value
    }

    /// The maximum the value is measured against.
    pub closed spec fn max_spec(&self) -> usize {
        self.max
    }

    /// A tracker's maximum is positive, so "share of the quota" always means
    /// something.
    pub open spec fn wf(&self) -> bool {
        self.max_spec() >= 1
    }

    /// A tracker for a quota of `max`, starting from zero usage.
    pub fn new(messenger: &T, max: usize) -> (t: LimitTracker<T>)
        requires
            max >= 1,
        ensures
            t.wf(),
            t.value_spec() == 0,
            t.max_spec() == max,
    {
        LimitTracker { messenger, value: 0, max }
    }

    /// Records a new value and sends at most one message: the one matching
    /// the warning level of the new value, or none when the value is still
    /// comfortably below the quota.
    pub fn set_value(&mut self, value: usize)
        requires
            old(self).wf(),
        ensures
            final(self).wf(),
            final(self).value_spec() == value,
            final(self).max_spec() == old(self).max_spec(),
    {
        self.value = value;
        let level = quota_level(value, self.max);
        match level {
            QuotaLevel::Exceeded => {
                self.messenger.send("Error: You are over your quota!");
            },
            QuotaLevel::Urgent => {
                self.messenger.send("Urgent warning: You've used up over 90% of your quota!");
            },
            QuotaLevel::Warning => {
                self.messenger.send("Warning: You've used up over 75% of your quota!");
            },
            QuotaLevel::Quiet => {},
        }
    }
}

} // verus!
