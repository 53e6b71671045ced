//! Jankurai lens helpers: the scrolling entry window, text clipping and the
//! score sparkline.

pub mod data;
pub mod panels;

use vstd::prelude::*;

use crate::text::{chars_of, push_char, string_from_prefix};

verus! {

/// The visible entry window `(start, end)` over `entry_count` entries shown in
/// `row_count` rows, keeping the (clamped) selection centred where possible.
pub open spec fn entry_window(entry_count: nat, selected_index: nat, row_count: nat) -> (
    nat,
    nat,
) {
    if entry_count == 0 || row_count == 0 {
        (0, 0)
    } else {
        let visible = if row_count < entry_count {
            row_count
        } else {
            entry_count
        };
        let selected = if selected_index < entry_count {
            selected_index
        } else {
            (entry_count - 1) as nat
        };
        let centred = if selected >= visible / 2 {
            (selected - visible / 2) as nat
        } else {
            0
        };
        let start = if centred + visible > entry_count {
            (entry_count - visible) as nat
        } else {
            centred
        };
        (start, start + visible)
    }
}

/// Compute the visible entry window, keeping the selection centred.
pub fn visible_entry_window(entry_count: usize, selected_index: usize, row_count: usize) -> (r: (
    usize,
    usize,
))
    ensures
        (r.0 as nat, r.1 as nat) == entry_window(
            entry_count as nat,
            selected_index as nat,
            row_count as nat,
        ),
{
    if entry_count == 0 || row_count == 0 {
        return (0, 0);
    }
    let visible_count = if row_count < entry_count {
        row_count
    } else {
        entry_count
    };
    let selected = if selected_index < entry_count {
        selected_index
    } else {
        entry_count - 1
    };
    let mut start = if selected >= visible_count / 2 {
        selected - visible_count / 2
    } else {
        0
    };
    if start > entry_count - visible_count {
        start = entry_count - visible_count;
    }
    (start, start + visible_count)
}

/// The window always shows `min(rows, entries)` entries inside the list, and
/// the (clamped) selection is one of them.
pub proof fn lemma_entry_window_shows_selection(
    entry_count: nat,
    selected_index: nat,
    row_count: nat,
)
    requires
        entry_count > 0,
        row_count > 0,
    ensures
        ({
            let (start, end) = entry_window(entry_count, selected_index, row_count);
            let sel = if selected_index < entry_count {
                selected_index
            } else {
                (entry_count - 1) as nat
            };
            &&& end <= entry_count
            &&& end - start == (if row_count < entry_count {
                row_count
            } else {
                entry_count
            })
            &&& start <= sel < end
        }),
{
}

/// The first `max_chars` characters of `input`, followed by an ellipsis when
/// anything was clipped.
pub open spec fn clipped_text(input: Seq<char>, max_chars: nat) -> Seq<char> {
    if input.len() > max_chars {
        input.take(max_chars as int) + "…"@
    } else {
        input
    }
}

/// Truncate to `max_chars`, appending an ellipsis when clipped.
pub fn short_text(input: &str, max_chars: usize) -> (r: String)
    ensures
        r@ == clipped_text(input@, max_chars as nat),
{
    let chars = chars_of(input);
    if chars.len() > max_chars {
        let mut text = string_from_prefix(chars.as_slice(), max_chars);
        text.append("…");
        text
    } else {
        assert(chars@.take(chars@.len() as int) =~= chars@);
        string_from_prefix(chars.as_slice(), chars.len())
    }
}

/// The eight sparkline blocks, lowest first.
pub open spec fn spark_block(level: int) -> char {
    if level <= 0 {
        '▁'
    } else if level == 1 {
        '▂'
    } else if level == 2 {
        '▃'
    } else if level == 3 {
        '▄'
    } else if level == 4 {
        '▅'
    } else if level == 5 {
        '▆'
    } else if level == 6 {
        '▇'
    } else {
        '█'
    }
}

/// The values a sparkline of `width` columns draws: the last `width` values
/// (all of them when there are fewer).
pub open spec fn spark_window(values: Seq<i64>, width: nat) -> Seq<i64> {
    let take = if width < values.len() {
        width
    } else {
        values.len()
    };
    values.subrange(values.len() - take, values.len() as int)
}

/// Smallest value of a non-empty sequence.
pub open spec fn seq_min(s: Seq<i64>) -> int
    decreases s.len(),
{
    if s.len() <= 1 {
        s[0] as int
    } else {
        let m = seq_min(s.drop_last());
        if (s.last() as int) < m {
            s.last() as int
        } else {
            m
        }
    }
}

/// Largest value of a non-empty sequence.
pub open spec fn seq_max(s: Seq<i64>) -> int
    decreases s.len(),
{
    if s.len() <= 1 {
        s[0] as int
    } else {
        let m = seq_max(s.drop_last());
        if (s.last() as int) > m {
            s.last() as int
        } else {
            m
        }
    }
}

/// Block level of `v` in `[lo, hi]` (with `lo < hi`): `7 (v - lo) / (hi - lo)`
/// rounded half up, capped at 7.
pub open spec fn spark_level(v: int, lo: int, hi: int) -> int {
    let span = hi - lo;
    let level = (14 * (v - lo) + span) / (2 * span);
    if level > 7 {
        7
    } else {
        level
    }
}

/// The sparkline of `values` over `width` columns: `n/a` when there is
/// nothing to draw, a flat middle line for constant values, and otherwise one
/// block per value scaled between the window's minimum and maximum.
pub open spec fn sparkline(values: Seq<i64>, width: nat) -> Seq<char> {
    if values.len() == 0 || width == 0 {
        "n/a"@
    } else {
        let w = spark_window(values, width);
        let lo = seq_min(w);
        let hi = seq_max(w);
        if lo == hi {
            Seq::new(w.len(), |i: int| '▄')
        } else {
            Seq::new(w.len(), |i: int| spark_block(spark_level(w[i] as int, lo, hi)))
        }
    }
}

/// The block character of level `level` (0..=7).
fn block_char(level: u128) -> (r: char)
    ensures
        r == spark_block(level as int),
{
    if level == 0 {
        '▁'
    } else if level == 1 {
        '▂'
    } else if level == 2 {
        '▃'
    } else if level == 3 {
        '▄'
    } else if level == 4 {
        '▅'
    } else if level == 5 {
        '▆'
    } else if level == 6 {
        '▇'
    } else {
        '█'
    }
}

/// Render a compact block sparkline from integer scores.
pub fn spark_str(values: &[i64], width: usize) -> (r: String)
    requires
        forall|i: int, j: int|
            0 <= i < spark_window(values@, width as nat).len() && 0 <= j < spark_window(
                values@,
                width as nat,
            ).len() ==> spark_window(values@, width as nat)[i] - spark_window(
                values@,
                width as nat,
            )[j] <= i64::MAX,
    ensures
        r@ == sparkline(values@, width as nat),
{
    if values.len() == 0 || width == 0 {
        return "n/a".to_owned();
    }
    let n = values.len();
    let take = if width < n {
        width
    } else {
        n
    };
    let first = n - take;
    let ghost w = spark_window(values@, width as nat);
    assert(w =~= values@.subrange(first as int, n as int));
    let mut lo: i64 = values[first];
    let mut hi: i64 = values[first];
    let mut k: usize = first + 1;
    assert(w.take(1) =~= seq![w[0]]);
    while k < n
        invariant
            first < k <= n,
            n == values@.len(),
            first + take == n,
            take == w.len(),
            w =~= values@.subrange(first as int, n as int),
            lo == seq_min(w.take(k - first)),
            hi == seq_max(w.take(k - first)),
        decreases n - k,
    {
        proof {
            assert(w.take(k - first + 1).drop_last() =~= w.take(k - first));
            assert(w.take(k - first + 1).last() == values@[k as int]);
        }
        if values[k] < lo {
            lo = values[k];
        }
        if values[k] > hi {
            hi = values[k];
        }
        k = k + 1;
    }
    assert(w.take(w.len() as int) =~= w);
    let mut out = String::new();
    let mut i: usize = 0;
    if lo == hi {
        while i < take
            invariant
                take == w.len(),
                i <= take,
                out@ =~= Seq::new(i as nat, |j: int| '▄'),
            decreases take - i,
        {
            push_char(&mut out, '▄');
            i = i + 1;
        }
        return out;
    }
    proof {
        lemma_seq_min_max_bounds(w);
    }
    let span: u128 = (hi as i128 - lo as i128) as u128;
    while i < take
        invariant
            take == w.len(),
            i <= take,
            first + take == n,
            n == values@.len(),
            w =~= values@.subrange(first as int, n as int),
            lo == seq_min(w),
            hi == seq_max(w),
            lo < hi,
            span == hi - lo,
            forall|j: int| 0 <= j < w.len() ==> lo <= #[trigger] w[j] <= hi,
            out@ =~= Seq::new(
                i as nat,
                |j: int| spark_block(spark_level(w[j] as int, lo as int, hi as int)),
            ),
        decreases take - i,
    {
        let v: i64 = values[first + i];
        assert(v == w[i as int]);
        let d: u128 = (v as i128 - lo as i128) as u128;
        let level: u128 = (14 * d + span) / (2 * span);
        let capped: u128 = if level > 7 {
            7
        } else {
            level
        };
        push_char(&mut out, block_char(capped));
        i = i + 1;
    }
    out
}

/// Every value of a non-empty sequence lies between its minimum and maximum.
pub proof fn lemma_seq_min_max_bounds(s: Seq<i64>)
    requires
        s.len() > 0,
    ensures
        forall|j: int| 0 <= j < s.len() ==> seq_min(s) <= #[trigger] s[j] <= seq_max(s),
    decreases s.len(),
{
    if s.len() > 1 {
        lemma_seq_min_max_bounds(s.drop_last());
        assert forall|j: int| 0 <= j < s.len() implies seq_min(s) <= #[trigger] s[j] <= seq_max(
            s,
        ) by {
            if j < s.len() - 1 {
                assert(s[j] == s.drop_last()[j]);
            }
        }
    }
}

/// The minimum and the maximum of a non-empty sequence are values of it.
pub proof fn lemma_seq_min_max_attained(s: Seq<i64>)
    requires
        s.len() > 0,
    ensures
        exists|j: int| 0 <= j < s.len() && s[j] == seq_min(s),
        exists|j: int| 0 <= j < s.len() && s[j] == seq_max(s),
    decreases s.len(),
{
    if s.len() == 1 {
        assert(s[0] == seq_min(s));
        assert(s[0] == seq_max(s));
    } else {
        let d = s.drop_last();
        lemma_seq_min_max_attained(d);
        let a = choose|j: int| 0 <= j < d.len() && d[j] == seq_min(d);
        let b = choose|j: int| 0 <= j < d.len() && d[j] == seq_max(d);
        assert(s[a] == d[a]);
        assert(s[b] == d[b]);
        let l = s.len() - 1;
        if (s.last() as int) < seq_min(d) {
            assert(s[l] == seq_min(s));
        } else {
            assert(s[a] == seq_min(s));
        }
        if (s.last() as int) > seq_max(d) {
            assert(s[l] == seq_max(s));
        } else {
            assert(s[b] == seq_max(s));
        }
    }
}

} // verus!
