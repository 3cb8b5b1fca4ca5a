//! The range calculator: the plotted window's start index, the whole-unit
//! floor and ceiling of its readings, and the four header labels.

use vstd::prelude::*;
use crate::GRAPH_QTY;
use crate::entry::WeightEntry;
use crate::textfmt::padded_dec;
use crate::textfmt::padded_dec_string;

verus! {

/// Start index of the plotted window: zero when there are at most thirty
/// samples, else the index of the thirtieth-from-last sample.
pub open spec fn spec_start_index(total: nat) -> nat {
    if total > GRAPH_QTY as nat {
        (total - GRAPH_QTY) as nat
    } else {
        0
    }
}

/// Start index for iterating through the most recent entries.
pub fn calc_start_index(entries: &Vec<WeightEntry>) -> (r: usize)
    ensures
        r as nat == spec_start_index(entries@.len()),
        r <= entries@.len(),
{
    let entry_total = entries.len();
    let mut index: usize = 0;
    if entry_total > GRAPH_QTY {
        index = entry_total - GRAPH_QTY;
    }
    index
}

/// Minimum reading in tenths over `e[start..i)`. The search is seeded with
/// one thousand units, the largest value the three-digit header is meant to
/// show, so readings at or above that leave the seed in place.
pub open spec fn win_min_t(e: Seq<WeightEntry>, start: int, i: int) -> nat
    decreases i - start,
{
    if i <= start {
        10000
    } else {
        let prev = win_min_t(e, start, i - 1);
        let t = e[i - 1].weight_tenths as nat;
        if t < prev {
            t
        } else {
            prev
        }
    }
}

/// Maximum reading in tenths over `e[start..i)`, seeded with zero.
pub open spec fn win_max_t(e: Seq<WeightEntry>, start: int, i: int) -> nat
    decreases i - start,
{
    if i <= start {
        0
    } else {
        let prev = win_max_t(e, start, i - 1);
        let t = e[i - 1].weight_tenths as nat;
        if t > prev {
            t
        } else {
            prev
        }
    }
}

/// Whole-unit floor of a reading held in tenths.
pub open spec fn floor_tenths(t: nat) -> nat {
    t / 10
}

/// Whole-unit ceiling of a reading held in tenths.
pub open spec fn ceil_tenths(t: nat) -> nat {
    if t % 10 == 0 {
        t / 10
    } else {
        t / 10 + 1
    }
}

/// The plot range's lower bound: floor of the window's minimum reading.
pub open spec fn win_floor_min(e: Seq<WeightEntry>, start: int) -> nat {
    floor_tenths(win_min_t(e, start, e.len() as int))
}

/// The plot range's upper bound: ceiling of the window's maximum reading.
pub open spec fn win_ceil_max(e: Seq<WeightEntry>, start: int) -> nat {
    ceil_tenths(win_max_t(e, start, e.len() as int))
}

/// Over a non-empty window the running minimum never exceeds the running
/// maximum.
pub proof fn lemma_win_min_le_max(e: Seq<WeightEntry>, start: int, i: int)
    requires
        start < i <= e.len(),
    ensures
        win_min_t(e, start, i) <= win_max_t(e, start, i),
    decreases i - start,
{
    if i - 1 > start {
        lemma_win_min_le_max(e, start, i - 1);
    }
}

/// Every sample of the window lies between the window's running bounds.
pub proof fn lemma_win_member(e: Seq<WeightEntry>, start: int, i: int, j: int)
    requires
        start <= j < i <= e.len(),
    ensures
        win_min_t(e, start, i) <= e[j].weight_tenths,
        win_max_t(e, start, i) >= e[j].weight_tenths,
    decreases i - j,
{
    if j < i - 1 {
        lemma_win_member(e, start, i - 1, j);
    }
}

/// A window of samples that all hold one reading at most the seed has that
/// reading as both running bounds.
pub proof fn lemma_win_all_equal(e: Seq<WeightEntry>, start: int, i: int, t: nat)
    requires
        start < i <= e.len(),
        t <= 10000,
        forall|j: int| start <= j < i ==> e[j].weight_tenths as nat == t,
    ensures
        win_min_t(e, start, i) == t,
        win_max_t(e, start, i) == t,
    decreases i - start,
{
    assert(e[i - 1].weight_tenths as nat == t);
    if i - 1 > start {
        lemma_win_all_equal(e, start, i - 1, t);
    } else {
        assert(win_min_t(e, start, i - 1) == 10000);
        assert(win_max_t(e, start, i - 1) == 0);
    }
}

/// Every window reading, in tenths, lies between ten times the plot floor
/// and ten times the plot ceiling.
pub proof fn lemma_window_range_bounds(e: Seq<WeightEntry>, start: int, j: int)
    requires
        0 <= start <= j < e.len(),
    ensures
        10 * win_floor_min(e, start) <= e[j].weight_tenths,
        e[j].weight_tenths <= 10 * win_ceil_max(e, start),
        win_floor_min(e, start) <= win_ceil_max(e, start),
{
    lemma_win_member(e, start, e.len() as int, j);
    lemma_win_min_le_max(e, start, e.len() as int);
}

/// (Min,Max) whole-unit bounds for the plot range over the window starting
/// at `start`.
pub fn calc_min_max(entries: &Vec<WeightEntry>, start: usize) -> (r: (u32, u32))
    requires
        start < entries@.len(),
    ensures
        r.0 as nat == win_floor_min(entries@, start as int),
        r.1 as nat == win_ceil_max(entries@, start as int),
        r.0 <= r.1,
{
    let mut mn: u32 = 10000;
    let mut mx: u32 = 0;
    let mut i: usize = start;
    while i < entries.len()
        invariant
            start <= i <= entries@.len(),
            mn as nat == win_min_t(entries@, start as int, i as int),
            mx as nat == win_max_t(entries@, start as int, i as int),
        decreases entries@.len() - i,
    {
        let t = entries[i].weight_tenths;
        if t < mn {
            mn = t;
        }
        if t > mx {
            mx = t;
        }
        i = i + 1;
    }
    proof {
        lemma_win_min_le_max(entries@, start as int, entries@.len() as int);
    }
    let fl = mn / 10;
    let ce = if mx % 10 == 0 {
        mx / 10
    } else {
        mx / 10 + 1
    };
    (fl, ce)
}

/// A third of the range, rounded to the nearest whole unit: a remainder of
/// two thirds rounds up, a remainder of one third rounds down.
pub open spec fn spec_change_round(d: nat) -> nat {
    if d % 3 == 2 {
        d / 3 + 1
    } else {
        d / 3
    }
}

/// The four header labels: three-digit forms of the bounds with two evenly
/// spaced midpoints, or dashed midpoints when the range spans less than
/// three whole units.
pub open spec fn spec_header_labels(mn: nat, mx: nat) -> Seq<Seq<char>> {
    if mx < mn + 3 {
        seq![
            padded_dec(mn, 3),
            seq!['-', '-', '-'],
            seq!['-', '-', '-'],
            padded_dec(mx, 3),
        ]
    } else {
        seq![
            padded_dec(mn, 3),
            padded_dec(mn + spec_change_round((mx - mn) as nat), 3),
            padded_dec((mx - spec_change_round((mx - mn) as nat)) as nat, 3),
            padded_dec(mx, 3),
        ]
    }
}

/// Four evenly spaced header values formatted "000".
pub fn calc_header_values(min_bound: u32, max_bound: u32) -> (r: Vec<String>)
    requires
        min_bound <= max_bound,
    ensures
        r@.len() == 4,
        r@[0]@ == spec_header_labels(min_bound as nat, max_bound as nat)[0],
        r@[1]@ == spec_header_labels(min_bound as nat, max_bound as nat)[1],
        r@[2]@ == spec_header_labels(min_bound as nat, max_bound as nat)[2],
        r@[3]@ == spec_header_labels(min_bound as nat, max_bound as nat)[3],
{
    let d = max_bound - min_bound;
    let mut v: Vec<String> = Vec::new();
    if d < 3 {
        proof {
            reveal_strlit("---");
            assert("---"@ =~= seq!['-', '-', '-']);
        }
        v.push(padded_dec_string(min_bound, 3));
        v.push(String::from_str("---"));
        v.push(String::from_str("---"));
        v.push(padded_dec_string(max_bound, 3));
    } else {
        let rounded = if d % 3 == 2 {
            d / 3 + 1
        } else {
            d / 3
        };
        proof {
            assert(rounded <= d) by (nonlinear_arith)
                requires
                    rounded == (if (d as nat) % 3 == 2 {
                        (d as nat) / 3 + 1
                    } else {
                        (d as nat) / 3
                    }),
                    d >= 3,
            {
            }
        }
        let mid_a = min_bound + rounded;
        let mid_b = max_bound - rounded;
        v.push(padded_dec_string(min_bound, 3));
        v.push(padded_dec_string(mid_a, 3));
        v.push(padded_dec_string(mid_b, 3));
        v.push(padded_dec_string(max_bound, 3));
    }
    v
}

} // verus!
