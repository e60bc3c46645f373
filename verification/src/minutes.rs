//! Lengths of time.

use vstd::prelude::*;

verus! {

/// The number of milliseconds in a minute.
pub const MS_PER_MINUTE: i64 = 60_000;

/// The number of milliseconds in a second.
pub const MS_PER_SECOND: i64 = 1_000;

/// Whether a number of milliseconds is one that a length can hold.
pub open spec fn fits(millis: int) -> bool {
    i64::MIN <= millis <= i64::MAX
}

/// The number of milliseconds nearest to `millis` that a length can hold:
/// `millis` itself wherever it fits, else the least or the greatest length.
pub open spec fn fit(millis: int) -> int {
    if millis < i64::MIN {
        i64::MIN as int
    } else if millis > i64::MAX {
        i64::MAX as int
    } else {
        millis
    }
}

/// A length of time in minutes, kept exactly as a whole number of
/// milliseconds. It can be negative: the time that remains of a phase that has
/// run over is below zero.
#[derive(Debug, PartialEq, Eq, PartialOrd, Ord, Clone, Copy, Structural)]
pub struct Minutes {
    pub millis: i64,
}

impl Minutes {
    /// The length of `minutes` whole minutes.
    pub fn from_whole(minutes: i32) -> (m: Minutes)
        ensures
            m.millis == minutes * MS_PER_MINUTE,
    {
        let wide: i64 = minutes as i64;
        Minutes { millis: wide * MS_PER_MINUTE }
    }

    /// The length of `millis` milliseconds.
    pub fn from_millis(millis: i64) -> (m: Minutes)
        ensures
            m.millis == millis,
    {
        Minutes { millis }
    }

    /// The length of `millis` milliseconds where a length can hold it, else
    /// the nearest length; see [`fit`].
    pub(crate) fn from_wide(millis: i128) -> (m: Minutes)
        ensures
            m.millis == fit(millis as int),
    {
        if millis < i64::MIN as i128 {
            Minutes { millis: i64::MIN }
        } else if millis > i64::MAX as i128 {
            Minutes { millis: i64::MAX }
        } else {
            Minutes { millis: millis as i64 }
        }
    }

    /// The length in milliseconds.
    pub fn as_millis(&self) -> (millis: i64)
        ensures
            millis == self.millis,
    {
        self.millis
    }

    /// The minutes that a countdown shows for this length: the whole minutes
    /// in it, and zero for a length below zero.
    pub open spec fn countdown_minutes(self) -> int {
        if self.millis > 0 {
            (self.millis as int) / (MS_PER_MINUTE as int)
        } else {
            0
        }
    }

    /// The seconds that a countdown shows for this length beside the minutes:
    /// the whole seconds of what is left over the whole minutes. A length
    /// above zero that would show as nought minutes and nought seconds shows
    /// one second, so that the countdown reaches nought only when no time is
    /// left.
    pub open spec fn countdown_seconds(self) -> int {
        if self.millis <= 0 {
            0
        } else if self.millis < MS_PER_SECOND {
            1
        } else {
            ((self.millis as int) % (MS_PER_MINUTE as int)) / (MS_PER_SECOND as int)
        }
    }

    /// The minutes and the seconds that a countdown shows for this length;
    /// see [`Minutes::countdown_minutes`] and [`Minutes::countdown_seconds`].
    pub fn countdown(&self) -> (shown: (u64, u64))
        ensures
            shown.0 == self.countdown_minutes(),
            shown.1 == self.countdown_seconds(),
            shown.1 < 60,
            (shown.0 == 0 && shown.1 == 0) <==> self.millis <= 0,
    {
        if self.millis <= 0 {
            return (0, 0);
        }
        let left: u64 = self.millis as u64;
        let minutes: u64 = left / 60_000;
        let seconds: u64 = (left % 60_000) / 1_000;
        if minutes == 0 && seconds == 0 {
            (0, 1)
        } else {
            (minutes, seconds)
        }
    }

    /// The length in whole seconds, rounded to the nearest; a half rounds away
    /// from zero.
    pub open spec fn nearest_second(self) -> int {
        if self.millis >= 0 {
            (self.millis + 500) / (MS_PER_SECOND as int)
        } else {
            -((500 - self.millis) / (MS_PER_SECOND as int))
        }
    }

    /// The length in whole seconds, rounded to the nearest; see
    /// [`Minutes::nearest_second`].
    pub fn rounded_seconds(&self) -> (seconds: i64)
        ensures
            seconds == self.nearest_second(),
            -500 <= seconds * MS_PER_SECOND - self.millis <= 500,
    {
        if self.millis >= 0 {
            let size: u64 = self.millis as u64;
            let rounded: u64 = (size + 500) / 1_000;
            rounded as i64
        } else {
            let size: u64 = (-(self.millis + 1)) as u64 + 1;
            let rounded: u64 = (size + 500) / 1_000;
            -(rounded as i64)
        }
    }
}

/// A part of a whole, both lengths in milliseconds: the fraction `part / whole`.
#[derive(Debug, PartialEq, Eq, Clone, Copy, Structural)]
pub struct Progress {
    pub part: i64,
    pub whole: i64,
}

} // verus!
