//! The windows of time over which readings are averaged.

use vstd::prelude::*;
use crate::model::DeviceRecordsTimestampRange;

verus! {

pub const MINUTE_AS_SECS: u64 = 60;

pub const HOUR_AS_SECS: u64 = 3600;

pub const DAY_AS_SECS: u64 = 86400;

pub const WEEK_AS_SECS: u64 = 604800;

/// A twelfth of a year of 365 days, in whole days.
pub const MONTH_AS_SECS: u64 = 2592000;

impl DeviceRecordsTimestampRange {
    /// How far before now the range ends, in seconds.
    pub open spec fn offset(self) -> int {
        match self {
            DeviceRecordsTimestampRange::LastMonth => MONTH_AS_SECS as int,
            DeviceRecordsTimestampRange::MonthBeforeLast => 2 * MONTH_AS_SECS,
            _ => 0,
        }
    }

    /// Into how many windows the range is cut.
    pub open spec fn windows(self) -> int {
        match self {
            DeviceRecordsTimestampRange::Today => 24,
            DeviceRecordsTimestampRange::Week => 7,
            DeviceRecordsTimestampRange::LastThreeMoths => 3,
            _ => 5,
        }
    }

    /// How long one window is, in seconds.
    pub open spec fn interval(self) -> int {
        match self {
            DeviceRecordsTimestampRange::Today => HOUR_AS_SECS as int,
            DeviceRecordsTimestampRange::Week => DAY_AS_SECS as int,
            DeviceRecordsTimestampRange::LastThreeMoths => MONTH_AS_SECS as int,
            _ => WEEK_AS_SECS as int,
        }
    }

    /// How far before now the range begins, in seconds.
    pub open spec fn span(self) -> int {
        self.offset() + self.windows() * self.interval()
    }

    /// Where window `i` begins, counting back from the end of the range.
    pub open spec fn window_from(self, now: u64, i: int) -> int {
        now - self.offset() - self.interval() * (i + 1)
    }

    /// Where window `i` ends. A window ends where the one before it, which
    /// is later in time, begins.
    pub open spec fn window_until(self, now: u64, i: int) -> int {
        now - self.offset() - self.interval() * i
    }

    fn cut(&self) -> (r: (u64, u64, u64))
        ensures
            r.0 == self.offset(),
            r.1 == self.windows(),
            r.2 == self.interval(),
            r.0 + r.1 * r.2 == self.span(),
            self.span() <= 4 * MONTH_AS_SECS,
    {
        let r: (u64, u64, u64) = match self {
            DeviceRecordsTimestampRange::Today => (0, 24, HOUR_AS_SECS),
            DeviceRecordsTimestampRange::Week => (0, 7, DAY_AS_SECS),
            DeviceRecordsTimestampRange::Month => (0, 5, WEEK_AS_SECS),
            DeviceRecordsTimestampRange::LastMonth => (MONTH_AS_SECS, 5, WEEK_AS_SECS),
            DeviceRecordsTimestampRange::MonthBeforeLast => (2 * MONTH_AS_SECS, 5, WEEK_AS_SECS),
            DeviceRecordsTimestampRange::LastThreeMoths => (0, 3, MONTH_AS_SECS),
        };
        proof {
            let count = self.windows();
            let interval = self.interval();
            assert(count * interval <= 3 * MONTH_AS_SECS) by (nonlinear_arith)
                requires
                    (count == 24 && interval == 3600) || (count == 7 && interval == 86400) || (count
                        == 5 && interval == 604800) || (count == 3 && interval == 2592000),
            ;
        }
        r
    }

    /// The windows of the range as seen from `now`, latest first, each as
    /// the second it begins and the second it ends. There are none where the
    /// range would begin before the Unix epoch.
    pub fn buckets(&self, now: u64) -> (r: Option<Vec<(u64, u64)>>)
        ensures
            r is Some <==> now >= self.span(),
            r is Some ==> {
                &&& r->Some_0@.len() == self.windows()
                &&& forall|i: int|
                    0 <= i < self.windows() ==> {
                        &&& (#[trigger] r->Some_0@[i]).0 == self.window_from(now, i)
                        &&& r->Some_0@[i].1 == self.window_until(now, i)
                    }
            },
    {
        let (offset, count, interval) = self.cut();
        if now < offset + count * interval {
            return None;
        }
        let mut result: Vec<(u64, u64)> = Vec::new();
        let mut until: u64 = now - offset;
        let mut i: u64 = 0;
        while i < count
            invariant
                i <= count,
                offset == self.offset(),
                count == self.windows(),
                interval == self.interval(),
                now >= offset + count * interval,
                until == now - offset - interval * i,
                result@.len() == i,
                forall|j: int|
                    0 <= j < i ==> {
                        &&& (#[trigger] result@[j]).0 == self.window_from(now, j)
                        &&& result@[j].1 == self.window_until(now, j)
                    },
            decreases count - i,
        {
            assert(interval * (i + 1) == interval * i + interval) by (nonlinear_arith);
            assert(interval * (i + 1) <= count * interval) by (nonlinear_arith)
                requires
                    i + 1 <= count,
                    interval >= 0,
            ;
            let from: u64 = until - interval;
            result.push((from, until));
            until = from;
            i += 1;
        }
        Some(result)
    }

    /// The windows of a range lie side by side.
    pub proof fn lemma_windows_adjoin(self, now: u64, i: int)
        ensures
            self.window_until(now, i + 1) == self.window_from(now, i),
            self.window_until(now, i) - self.window_from(now, i) == self.interval(),
            self.window_until(now, 0) == now - self.offset(),
            self.window_from(now, self.windows() - 1) == now - self.span(),
    {
        assert(self.interval() * (i + 1) == self.interval() * i + self.interval())
            by (nonlinear_arith);
        assert(self.interval() * (self.windows() - 1 + 1) == self.windows() * self.interval())
            by (nonlinear_arith);
    }
}

} // verus!
