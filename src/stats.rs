use vstd::prelude::*;

verus! {

/// Number of consecutive active days (non-zero typing time) from index `i` on.
pub open spec fn streak_from(days: Seq<u64>, i: int) -> nat
    decreases days.len() - i,
{
    if i < 0 || i >= days.len() || days[i] == 0 {
        0
    } else {
        1 + streak_from(days, i + 1)
    }
}

/// The active days among the first `n`, in order, as (days ago, seconds).
pub open spec fn active_before(days: Seq<u64>, n: int) -> Seq<(usize, u64)>
    decreases n,
{
    if n <= 0 || n > days.len() {
        seq![]
    } else if days[n - 1] > 0 {
        active_before(days, n - 1).push(((n - 1) as usize, days[n - 1]))
    } else {
        active_before(days, n - 1)
    }
}

/// The active days, most recent first.
pub open spec fn active_days(days: Seq<u64>) -> Seq<(usize, u64)> {
    active_before(days, days.len() as int)
}

/// Sum of the seconds of the first `n` entries.
pub open spec fn seconds_sum(entries: Seq<(usize, u64)>, n: int) -> int
    decreases n,
{
    if n <= 0 || n > entries.len() {
        0
    } else {
        seconds_sum(entries, n - 1) + entries[n - 1].1
    }
}

/// The entries that the weekly view covers: the first seven active days.
pub open spec fn week(days: Seq<u64>) -> Seq<(usize, u64)> {
    let a = active_days(days);
    if a.len() > 7 {
        a.subrange(0, 7)
    } else {
        a
    }
}

/// Length of a chart bar of `mins` minutes when the longest is `max_mins`:
/// proportional over thirty cells, at most thirty.
pub open spec fn bar_len(mins: u64, max_mins: u64) -> u64 {
    if max_mins == 0 {
        0
    } else if (mins as int) * 30 / (max_mins as int) > 30 {
        30
    } else {
        ((mins as int) * 30 / (max_mins as int)) as u64
    }
}

/// The writing statistics of recent days.
pub struct Summary {
    /// Days in a row, ending today, with typing time.
    pub streak: usize,
    /// Today's typing time, in seconds.
    pub today_seconds: u64,
    /// Average daily typing time over the weekly view, in seconds.
    pub weekly_average: u64,
    /// One bar per day of the weekly view: (days ago, minutes, bar length).
    pub chart: Vec<(usize, u64, u64)>,
}

/// The active days, most recent first, as (days ago, seconds).
pub fn active_entries(days: &Vec<u64>) -> (r: Vec<(usize, u64)>)
    ensures
        r@ == active_days(days@),
{
    let mut r: Vec<(usize, u64)> = Vec::new();
    let mut i: usize = 0;
    while i < days.len()
        invariant
            i <= days.len(),
            r@ == active_before(days@, i as int),
        decreases days.len() - i,
    {
        if days[i] > 0 {
            r.push((i, days[i]));
        }
        i += 1;
    }
    r
}

/// Summarises typing time per day, indexed by days ago (today first, zero
/// for a day without a record).
pub fn summarize(days: &Vec<u64>) -> (r: Summary)
    ensures
        r.streak == streak_from(days@, 0),
        r.today_seconds == if days.len() > 0 {
            days@[0]
        } else {
            0
        },
        r.weekly_average as int == (if seconds_sum(week(days@), week(days@).len() as int) > u64::MAX {
            u64::MAX as int
        } else {
            seconds_sum(week(days@), week(days@).len() as int)
        }) / 7,
        r.chart@.len() == week(days@).len(),
        forall|k: int|
            0 <= k < r.chart@.len() ==> {
                let (ago, mins, bar) = #[trigger] r.chart@[k];
                &&& ago == week(days@)[k].0
                &&& mins == week(days@)[k].1 / 60
                &&& bar == bar_len(mins, max_minutes(week(days@)))
            },
{
    let mut streak: usize = 0;
    while streak < days.len() && days[streak] > 0
        invariant
            streak <= days.len(),
            streak_from(days@, 0) == streak + streak_from(days@, streak as int),
        decreases days.len() - streak,
    {
        streak += 1;
    }
    let today_seconds = if days.len() > 0 {
        days[0]
    } else {
        0
    };
    let active = active_entries(days);
    let n: usize = if active.len() > 7 {
        7
    } else {
        active.len()
    };
    let ghost wk = week(days@);
    assert(wk =~= active@.subrange(0, n as int));
    let mut total: u64 = 0;
    let mut longest: u64 = 0;
    let mut i: usize = 0;
    while i < n
        invariant
            i <= n <= active.len(),
            wk == active@.subrange(0, n as int),
            total as int == if seconds_sum(wk, i as int) > u64::MAX {
                u64::MAX as int
            } else {
                seconds_sum(wk, i as int)
            },
            longest == max_minutes_before(wk, i as int),
        decreases n - i,
    {
        let secs = active[i].1;
        if total > u64::MAX - secs {
            total = u64::MAX;
        } else {
            total = total + secs;
        }
        if secs / 60 > longest {
            longest = secs / 60;
        }
        i += 1;
    }
    let max_mins = if longest > 1 {
        longest
    } else {
        1
    };
    let mut chart: Vec<(usize, u64, u64)> = Vec::new();
    let mut j: usize = 0;
    while j < n
        invariant
            j <= n <= active.len(),
            wk == active@.subrange(0, n as int),
            max_mins == max_minutes(wk),
            chart@.len() == j,
            forall|k: int|
                0 <= k < j ==> {
                    let (ago, mins, bar) = #[trigger] chart@[k];
                    &&& ago == wk[k].0
                    &&& mins == wk[k].1 / 60
                    &&& bar == bar_len(mins, max_minutes(wk))
                },
        decreases n - j,
    {
        let (ago, secs) = active[j];
        let mins = secs / 60;
        let scaled = (mins as u128) * 30 / (max_mins as u128);
        let bar: u64 = if scaled > 30 {
            30
        } else {
            scaled as u64
        };
        chart.push((ago, mins, bar));
        j += 1;
    }
    Summary { streak, today_seconds, weekly_average: total / 7, chart }
}

/// The largest minute count among the first `n` entries.
pub open spec fn max_minutes_before(entries: Seq<(usize, u64)>, n: int) -> u64
    decreases n,
{
    if n <= 0 || n > entries.len() {
        0
    } else {
        let m = entries[n - 1].1 / 60;
        let rest = max_minutes_before(entries, n - 1);
        if m > rest {
            m
        } else {
            rest
        }
    }
}

/// The longest bar's minutes, at least one.
pub open spec fn max_minutes(entries: Seq<(usize, u64)>) -> u64 {
    let m = max_minutes_before(entries, entries.len() as int);
    if m > 1 {
        m
    } else {
        1
    }
}

} // verus!
