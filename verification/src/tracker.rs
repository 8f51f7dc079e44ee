//! Tracks a value against a limit and warns through a caller-supplied
//! messenger as thresholds are crossed.

use vstd::prelude::*;

verus! {

/// A channel over which warnings are delivered. Library users supply
/// the implementation; nothing is assumed about what sending does.
pub trait Messenger {
    fn send(&self, msg: &str);
}

/// How close a value has come to its limit: over the limit, over nine
/// tenths of it, over three quarters of it, or none of these.
#[derive(Debug, PartialEq, Eq, Structural)]
pub enum QuotaLevel {
    Quiet,
    Warning,
    Urgent,
    Over,
}

/// The warning level for `value` out of `max`, by exact comparison of
/// value / max against 1, 9/10 and 3/4. A limit of zero with a value
/// of zero stays quiet, the ratio being indeterminate.
pub open spec fn quota_level(value: int, max: int) -> QuotaLevel {
    if max == 0 && value == 0 {
        QuotaLevel::Quiet
    } else if value >= max {
        QuotaLevel::Over
    } else if 10 * value >= 9 * max {
        QuotaLevel::Urgent
    } else if 4 * value >= 3 * max {
        QuotaLevel::Warning
    } else {
        QuotaLevel::Quiet
    }
}

/// Computes the warning level for `value` out of `max`.
pub fn quota_level_of(value: usize, max: usize) -> (r: QuotaLevel)
    ensures
        r == quota_level(value as int, max as int),
{
    if max == 0 && value == 0 {
        QuotaLevel::Quiet
    } else if value >= max {
        QuotaLevel::Over
    } else if (value as u128) * 10 >= (max as u128) * 9 {
        QuotaLevel::Urgent
    } else if (value as u128) * 4 >= (max as u128) * 3 {
        QuotaLevel::Warning
    } else {
        QuotaLevel::Quiet
    }
}

/// Tracks a value against a maximum and warns its messenger as the
/// value approaches or passes the limit.
pub struct LimitTracker<'a, T: Messenger> {
    messenger: &'a T,
    value: usize,
    max: usize,
}

impl<'a, T> LimitTracker<'a, T> where T: Messenger {
    /// The value tracked.
    pub closed spec fn value(&self) -> usize {
        self.value
    }

    /// The limit tracked against.
    pub closed spec fn max(&self) -> usize {
        self.max
    }

    /// A tracker starting at zero with the given limit.
    pub fn new(messenger: &T, max: usize) -> (r: LimitTracker<T>)
        ensures
            r.value() == 0,
            r.max() == max,
    {
        LimitTracker { messenger, value: 0, max }
    }

    /// Records a new value and sends the warning its level calls for:
    /// over the limit an error, over nine tenths an urgent warning,
    /// over three quarters a plain one, and below that nothing.
    pub fn set_value(&mut self, value: usize)
        ensures
            final(self).value() == value,
            final(self).max() == old(self).max(),
    {
        self.value = value;

        match quota_level_of(self.value, self.max) {
            QuotaLevel::Over => {
                self.messenger.send("Error: You are over your quota!");
            },
            QuotaLevel::Urgent => {
                self.messenger.send("Urgent warning: You've used up over 90% of your quota!");
            },
            QuotaLevel::Warning => {
                self.messenger.send("Warning: You've used up over 75% of your quota!");
            },
            QuotaLevel::Quiet => {},
        }
    }
}

} // verus!
