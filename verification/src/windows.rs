//! Splitting a date range into windows that the activities and executions
//! endpoints accept.

use vstd::prelude::*;
use crate::timestamp::Timestamp;

verus! {

/// Longest window requested at once: 30 days, in nanoseconds.
///
/// Questrade documents a "maximum 31 days" range, but live testing shows the
/// actual limit is 31 calendar days in Eastern Time, measured from midnight
/// ET. Using 30-day windows keeps every request a full calendar day inside
/// the limit regardless of the caller's timezone or time of day.
pub const MAX_WINDOW_NANOS: i128 = 2_592_000_000_000_000;

/// The windows, as `(start, end)` nanosecond pairs, that cover `[start, end)`
/// from `start` on: each `MAX_WINDOW_NANOS` long but the last, which stops at `end`.
pub open spec fn windows_spec(start: int, end: int) -> Seq<(int, int)>
    decreases end - start,
{
    if start < end {
        let w_end = if start + MAX_WINDOW_NANOS < end {
            start + MAX_WINDOW_NANOS
        } else {
            end
        };
        seq![(start, w_end)] + windows_spec(w_end, end)
    } else {
        Seq::empty()
    }
}

/// The nanosecond pairs of a list of windows.
pub open spec fn window_nanos(ws: Seq<(Timestamp, Timestamp)>) -> Seq<(int, int)> {
    ws.map_values(|w: (Timestamp, Timestamp)| (w.0.unix_nanos as int, w.1.unix_nanos as int))
}

/// Split a date range into windows of at most 30 days for Questrade's
/// activities and executions endpoints.
///
/// Returns windows as `(start, end)` pairs in chronological order.
/// Returns an empty `Vec` if `start >= end`.
pub fn activity_windows(start: Timestamp, end: Timestamp) -> (windows: Vec<(Timestamp, Timestamp)>)
    requires
        start.unix_nanos < end.unix_nanos ==> end.unix_nanos + MAX_WINDOW_NANOS <= i128::MAX,
    ensures
        window_nanos(windows@) == windows_spec(start.unix_nanos as int, end.unix_nanos as int),
{
    let mut windows: Vec<(Timestamp, Timestamp)> = Vec::new();
    let mut cursor = start;
    while cursor.is_before(&end)
        invariant
            start.unix_nanos < end.unix_nanos ==> end.unix_nanos + MAX_WINDOW_NANOS <= i128::MAX,
            start.unix_nanos <= cursor.unix_nanos || start.unix_nanos >= end.unix_nanos,
            cursor.unix_nanos < end.unix_nanos ==> start.unix_nanos < end.unix_nanos,
            window_nanos(windows@) + windows_spec(cursor.unix_nanos as int, end.unix_nanos as int)
                == windows_spec(start.unix_nanos as int, end.unix_nanos as int),
        decreases end.unix_nanos - cursor.unix_nanos,
    {
        let reach = cursor.unix_nanos + MAX_WINDOW_NANOS;
        let window_end = if reach < end.unix_nanos {
            Timestamp::from_unix_nanos(reach)
        } else {
            end
        };
        let ghost before = windows@;
        windows.push((cursor, window_end));
        proof {
            let c = cursor.unix_nanos as int;
            let e = end.unix_nanos as int;
            let we = window_end.unix_nanos as int;
            assert(window_nanos(windows@) =~= window_nanos(before) + seq![(c, we)]);
            assert(windows_spec(c, e) == seq![(c, we)] + windows_spec(we, e));
            assert(window_nanos(windows@) + windows_spec(we, e) =~= window_nanos(before) + windows_spec(c, e));
        }
        cursor = window_end;
    }
    proof {
        assert(windows_spec(cursor.unix_nanos as int, end.unix_nanos as int) =~= Seq::<(int, int)>::empty());
        assert(window_nanos(windows@) + Seq::<(int, int)>::empty() =~= window_nanos(windows@));
    }
    windows
}

/// The windows form one unbroken, ordered cover of `[start, end)`: none when
/// the range is empty; otherwise the first starts at `start`, the last ends
/// at `end`, each starts where the one before ended, each is non-empty
/// and at most 30 days long, and every one but the last is exactly 30 days.
pub proof fn lemma_windows_cover(start: int, end: int)
    ensures
        (windows_spec(start, end).len() == 0) <==> (start >= end),
        start < end ==> windows_spec(start, end)[0].0 == start,
        start < end ==> windows_spec(start, end).last().1 == end,
        forall|i: int|
            0 <= i < windows_spec(start, end).len() ==> #[trigger] windows_spec(start, end)[i].0
                < windows_spec(start, end)[i].1 && windows_spec(start, end)[i].1
                - windows_spec(start, end)[i].0 <= MAX_WINDOW_NANOS,
        forall|i: int|
            0 < i < windows_spec(start, end).len() ==> #[trigger] windows_spec(start, end)[i].0
                == windows_spec(start, end)[i - 1].1,
        forall|i: int|
            0 <= i < windows_spec(start, end).len() - 1 ==> #[trigger] windows_spec(start, end)[i].1
                - windows_spec(start, end)[i].0 == MAX_WINDOW_NANOS,
    decreases end - start,
{
    if start < end {
        let w_end = if start + MAX_WINDOW_NANOS < end {
            start + MAX_WINDOW_NANOS
        } else {
            end
        };
        lemma_windows_cover(w_end, end);
        let rest = windows_spec(w_end, end);
        let all = windows_spec(start, end);
        assert(all == seq![(start, w_end)] + rest);
        assert forall|i: int| 0 <= i < all.len() implies #[trigger] all[i].0 < all[i].1 && all[i].1
            - all[i].0 <= MAX_WINDOW_NANOS by {
            if i > 0 {
                assert(all[i] == rest[i - 1]);
            }
        }
        assert forall|i: int| 0 <= i < all.len() - 1 implies #[trigger] all[i].1 - all[i].0
            == MAX_WINDOW_NANOS by {
            if i > 0 {
                assert(all[i] == rest[i - 1]);
            } else {
                assert(rest.len() > 0);
                assert(w_end < end);
            }
        }
        assert forall|i: int| 0 < i < all.len() implies #[trigger] all[i].0 == all[i - 1].1 by {
            assert(all[i] == rest[i - 1]);
            if i > 1 {
                assert(all[i - 1] == rest[i - 2]);
            }
        }
    }
}

/// The number of windows: the range length divided by 30 days, rounded up.
pub proof fn lemma_windows_count(start: int, end: int)
    ensures
        start < end ==> windows_spec(start, end).len() == (end - start + MAX_WINDOW_NANOS - 1)
            / (MAX_WINDOW_NANOS as int),
    decreases end - start,
{
    if start < end {
        let w = MAX_WINDOW_NANOS as int;
        if start + w < end {
            lemma_windows_count(start + w, end);
            assert((end - start + w - 1) / w == (end - (start + w) + w - 1) / w + 1) by (nonlinear_arith)
                requires
                    w > 0,
                    end - start > w,
            ;
        } else {
            assert(windows_spec(end, end).len() == 0);
            assert((end - start + w - 1) / w == 1) by (nonlinear_arith)
                requires
                    w > 0,
                    0 < end - start <= w,
            ;
        }
    }
}

} // verus!
