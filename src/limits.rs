//! Tracks a value against a quota and warns through a messenger as the
//! value nears or passes it.
use vstd::prelude::*;

verus! {

/// Where a message goes. Users supply the delivery.
pub trait Messenger {
    fn send(&self, msg: &str);
}

/// Whether `value` has reached at least `num / den` of `max`, as a ratio of
/// real numbers. A zero `max` counts as passed by any positive value and
/// reached by no value of zero.
pub open spec fn reaches(value: int, max: int, num: int, den: int) -> bool {
    if max == 0 {
        value > 0
    } else {
        value * den >= max * num
    }
}

/// The warning due for `value` against `max`, if any.
pub open spec fn spec_quota_message(value: int, max: int) -> Option<&'static str> {
    if reaches(value, max, 1, 1) {
        Some("Error: You are over your quota!")
    } else if reaches(value, max, 9, 10) {
        Some("Urgent warning: You've used up over 90% of your quota!")
    } else if reaches(value, max, 3, 4) {
        Some("Warning: You've used up over 75% of your quota!")
    } else {
        None
    }
}

/// The warning due for `value` against `max`: at 100% or more, at 90% or
/// more, at 75% or more, or none below that.
pub fn quota_message(value: usize, max: usize) -> (r: Option<&'static str>)
    ensures
        r == spec_quota_message(value as int, max as int),
{
    let v = value as u128;
    let m = max as u128;
    if max == 0 {
        if value > 0 {
            Some("Error: You are over your quota!")
        } else {
            None
        }
    } else if v >= m {
        Some("Error: You are over your quota!")
    } else if v * 10 >= m * 9 {
        Some("Urgent warning: You've used up over 90% of your quota!")
    } else if v * 4 >= m * 3 {
        Some("Warning: You've used up over 75% of your quota!")
    } else {
        None
    }
}

/// A value watched against a quota of `max`.
pub struct LimitTracker<'a, T: Messenger> {
    messenger: &'a T,
    value: usize,
    max: usize,
}

impl<'a, T: Messenger> LimitTracker<'a, T> {
    pub closed spec fn spec_value(&self) -> usize {
        self.value
    }

    pub closed spec fn spec_max(&self) -> usize {
        self.max
    }

    pub closed spec fn spec_messenger(&self) -> &'a T {
        self.messenger
    }

    /// Starts at zero against a quota of `max`.
    pub fn new(messenger: &'a T, max: usize) -> (r: LimitTracker<'a, T>)
        ensures
            r.spec_value() == 0,
            r.spec_max() == max,
            r.spec_messenger() == messenger,
    {
        LimitTracker { messenger, value: 0, max }
    }

    /// Records `value`, and sends the warning that `quota_message` gives
    /// for it, if any.
    pub fn set_value(&mut self, value: usize)
        ensures
            final(self).spec_value() == value,
            final(self).spec_max() == old(self).spec_max(),
            final(self).spec_messenger() == old(self).spec_messenger(),
    {
        self.value = value;
        if let Some(msg) = quota_message(value, self.max) {
            self.messenger.send(msg);
        }
    }
}

} // verus!
