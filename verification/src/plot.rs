//! The trend plotter: for each window sample, a horizontal position
//! proportional to its value within the plot range and an arrow glyph for
//! the direction of change, assembled into one text line per sample.

use vstd::prelude::*;
use vstd::arithmetic::div_mod::lemma_multiply_divide_lt;
use crate::PLOT_SPAN;
use crate::entry::DateStamp;
use crate::entry::WeightEntry;
use crate::entry::date_label;
use crate::entry::date_label_string;
use crate::entry::lemma_date_labels;
use crate::range::spec_header_labels;
use crate::range::spec_start_index;
use crate::range::calc_header_values;
use crate::range::calc_min_max;
use crate::range::calc_start_index;
use crate::range::lemma_window_range_bounds;
use crate::range::win_ceil_max;
use crate::range::win_floor_min;
use crate::textfmt::char_rep;
use crate::textfmt::count_char;
use crate::textfmt::lemma_count_concat;
use crate::textfmt::lemma_no_newline_concat;
use crate::textfmt::lemma_no_newline_count;
use crate::textfmt::lemma_no_newline_rep;
use crate::textfmt::no_newline;
use crate::textfmt::repeat_piece;

verus! {

/// The arrow glyph for the change between two readings: no change,
/// increase, or decrease.
pub open spec fn spec_arrow(prev: nat, latest: nat) -> char {
    if latest == prev {
        '↔'
    } else if latest > prev {
        '↑'
    } else {
        '↓'
    }
}

/// Compares entries and determines the arrow representing the change.
pub fn calc_arrow(prev_entry: &WeightEntry, latest_entry: &WeightEntry) -> (r: char)
    ensures
        r == spec_arrow(prev_entry.weight_tenths as nat, latest_entry.weight_tenths as nat),
{
    if latest_entry.weight_tenths == prev_entry.weight_tenths {
        '↔'
    } else if latest_entry.weight_tenths > prev_entry.weight_tenths {
        '↑'
    } else {
        '↓'
    }
}

/// The arrow glyph as a one-character text piece.
pub fn arrow_piece(arrow: char) -> (r: &'static str)
    requires
        arrow == '↔' || arrow == '↑' || arrow == '↓',
    ensures
        r@ == seq![arrow],
{
    proof {
        reveal_strlit("↔");
        reveal_strlit("↑");
        reveal_strlit("↓");
    }
    if arrow == '↔' {
        proof { assert("↔"@ =~= seq!['↔']); }
        "↔"
    } else if arrow == '↑' {
        proof { assert("↑"@ =~= seq!['↑']); }
        "↑"
    } else {
        proof { assert("↓"@ =~= seq!['↓']); }
        "↓"
    }
}

/// Horizontal plot column for a reading in tenths within the whole-unit
/// range [mn,mx]: the proportional position across the span, rounded to the
/// nearest column with halves rounding up. When the range collapses to a
/// single value the position is pinned to the span's midpoint, so the
/// division by the range size is never reached.
pub open spec fn spec_position(t: nat, mn: nat, mx: nat) -> nat {
    if mx <= mn {
        (PLOT_SPAN / 2) as nat
    } else {
        let num = if t >= 10 * mn {
            (t - 10 * mn) as nat
        } else {
            0nat
        };
        let den = 10 * ((mx - mn) as nat);
        (num * (PLOT_SPAN as nat) + den / 2) / den
    }
}

/// Computes the plot column of a reading; never past the span's end.
pub fn calc_position(t: u32, mn: u32, mx: u32) -> (r: usize)
    requires
        10 * (mn as nat) <= t as nat,
        t as nat <= 10 * (mx as nat),
    ensures
        r as nat == spec_position(t as nat, mn as nat, mx as nat),
        r <= PLOT_SPAN,
{
    if mx <= mn {
        PLOT_SPAN / 2
    } else {
        let num: u64 = (t as u64) - 10 * (mn as u64);
        let den: u64 = 10 * ((mx - mn) as u64);
        proof {
            assert(num <= den);
            assert((num as int) * 63 <= (den as int) * 63) by (nonlinear_arith)
                requires
                    num <= den,
            {
            }
        }
        let x: u64 = num * 63 + den / 2;
        proof {
            assert((x as int) < (den as int) * 64);
            lemma_multiply_divide_lt(x as int, den as int, 64);
        }
        let pos: u64 = x / den;
        pos as usize
    }
}

/// One plot line: border, date label, the arrow at its column inside the
/// span, border. A position at the far edge of the span is drawn one
/// column left of it, so the trailing fill is never negative.
pub open spec fn spec_row_plot(d: DateStamp, arrow: char, pos: nat) -> Seq<char> {
    let p = if pos >= PLOT_SPAN as nat {
        (PLOT_SPAN - 1) as nat
    } else {
        pos
    };
    seq!['░', ' '] + date_label(d) + seq![' ', ' '] + char_rep(' ', p) + seq![arrow] + char_rep(
        ' ',
        ((PLOT_SPAN - 1) as nat - p) as nat,
    ) + seq![' ', ' ', '░', '\n']
}

/// Builds one plot line.
pub fn row_plot(date: DateStamp, arrow: char, arrow_pos: usize) -> (r: String)
    requires
        date.wf(),
        arrow_pos <= PLOT_SPAN,
        arrow == '↔' || arrow == '↑' || arrow == '↓',
    ensures
        r@ == spec_row_plot(date, arrow, arrow_pos as nat),
{
    proof {
        reveal_strlit("░ ");
        reveal_strlit("  ");
        reveal_strlit(" ");
        reveal_strlit("  ░\n");
    }
    let span = PLOT_SPAN;
    let mut arrow_position = arrow_pos;
    if arrow_pos == span {
        arrow_position = arrow_position - 1;
    }
    let count_after = span - arrow_position - 1;
    let mut s = String::new();
    s.append("░ ");
    let dl = date_label_string(&date);
    s.append(dl.as_str());
    s.append("  ");
    let sp1 = repeat_piece(" ", arrow_position);
    s.append(sp1.as_str());
    s.append(arrow_piece(arrow));
    let sp2 = repeat_piece(" ", count_after);
    s.append(sp2.as_str());
    s.append("  ░\n");
    proof {
        assert("░ "@ =~= seq!['░', ' ']);
        assert("  "@ =~= seq![' ', ' ']);
        assert("  ░\n"@ =~= seq![' ', ' ', '░', '\n']);
        assert(s@ =~= spec_row_plot(date, arrow, arrow_pos as nat));
    }
    s
}

/// The plot line for window sample `i`: the first sample of the window
/// always carries the no-change arrow, each later one the arrow against
/// its immediate predecessor.
pub open spec fn spec_plot_row_at(
    e: Seq<WeightEntry>,
    start: int,
    mn: nat,
    mx: nat,
    i: int,
) -> Seq<char> {
    let arrow = if i == start {
        '↔'
    } else {
        spec_arrow(e[i - 1].weight_tenths as nat, e[i].weight_tenths as nat)
    };
    spec_row_plot(e[i].date, arrow, spec_position(e[i].weight_tenths as nat, mn, mx))
}

/// The plot lines for window samples before index `j`, concatenated.
pub open spec fn spec_plot_prefix(
    e: Seq<WeightEntry>,
    start: int,
    mn: nat,
    mx: nat,
    j: int,
) -> Seq<char>
    decreases j - start,
{
    if j <= start {
        Seq::<char>::empty()
    } else {
        spec_plot_prefix(e, start, mn, mx, j - 1) + spec_plot_row_at(e, start, mn, mx, j - 1)
    }
}

/// The whole plot block: one line per sample from the window start on.
pub open spec fn spec_plot_block(e: Seq<WeightEntry>, start: int, mn: nat, mx: nat) -> Seq<char> {
    spec_plot_prefix(e, start, mn, mx, e.len() as int)
}

/// Plot geometry, derived once per render from the window.
pub struct Plot {
    pub start_index: usize,
    pub min: u32,
    pub max: u32,
    pub header_values: Vec<String>,
}

impl Plot {
    /// The geometry fields describe the window of `e`.
    pub open spec fn wf_for(self, e: Seq<WeightEntry>) -> bool {
        &&& self.start_index as nat == spec_start_index(e.len())
        &&& (self.start_index as nat) < e.len()
        &&& self.min as nat == win_floor_min(e, self.start_index as int)
        &&& self.max as nat == win_ceil_max(e, self.start_index as int)
        &&& self.min <= self.max
        &&& self.header_values@.len() == 4
        &&& (forall|i: int|
            0 <= i < 4 ==> self.header_values@[i]@ == spec_header_labels(
                self.min as nat,
                self.max as nat,
            )[i])
    }

    /// Derives the window geometry from the sample sequence.
    pub fn new(entries: &Vec<WeightEntry>) -> (r: Plot)
        requires
            entries@.len() >= 1,
        ensures
            r.wf_for(entries@),
    {
        let start_index = calc_start_index(entries);
        let (min_val, max_val) = calc_min_max(entries, start_index);
        let header_values = calc_header_values(min_val, max_val);
        Plot { start_index, min: min_val, max: max_val, header_values }
    }

    /// One text line per window sample, concatenated in order.
    pub fn build_rows(&self, entries: &Vec<WeightEntry>) -> (r: String)
        requires
            self.wf_for(entries@),
            forall|i: int| 0 <= i < entries@.len() ==> (#[trigger] entries@[i]).wf(),
        ensures
            r@ == spec_plot_block(
                entries@,
                self.start_index as int,
                self.min as nat,
                self.max as nat,
            ),
    {
        let ghost e = entries@;
        let mut buffer = String::new();
        let mut i: usize = self.start_index;
        proof {
            assert(buffer@ =~= spec_plot_prefix(
                e,
                self.start_index as int,
                self.min as nat,
                self.max as nat,
                i as int,
            ));
        }
        while i < entries.len()
            invariant
                e == entries@,
                self.wf_for(e),
                forall|k: int| 0 <= k < e.len() ==> (#[trigger] e[k]).wf(),
                self.start_index <= i <= e.len(),
                buffer@ == spec_plot_prefix(
                    e,
                    self.start_index as int,
                    self.min as nat,
                    self.max as nat,
                    i as int,
                ),
            decreases e.len() - i,
        {
            proof {
                lemma_window_range_bounds(e, self.start_index as int, i as int);
            }
            let entry = entries[i];
            let pos = calc_position(entry.weight_tenths, self.min, self.max);
            let arrow = if i == self.start_index {
                '↔'
            } else {
                let prev_entry = entries[i - 1];
                calc_arrow(&prev_entry, &entry)
            };
            let row = row_plot(entry.date, arrow, pos);
            buffer.append(row.as_str());
            i = i + 1;
            proof {
                assert(buffer@ == spec_plot_prefix(
                    e,
                    self.start_index as int,
                    self.min as nat,
                    self.max as nat,
                    i as int,
                ));
            }
        }
        buffer
    }
}

/// A plot line is always the full graph width plus its line break: the
/// fixed framing and the span add up to eighty columns whatever the
/// arrow's position.
pub proof fn lemma_row_plot_len(d: DateStamp, arrow: char, pos: nat)
    requires
        d.wf(),
    ensures
        spec_row_plot(d, arrow, pos).len() == (crate::GRAPH_WIDTH + 1) as nat,
{
    lemma_date_labels(d);
}

/// Each plot line holds exactly one line break, at its end.
pub proof fn lemma_row_plot_newlines(d: DateStamp, arrow: char, pos: nat)
    requires
        d.wf(),
        arrow != '\n',
    ensures
        count_char(spec_row_plot(d, arrow, pos), '\n') == 1,
{
    lemma_date_labels(d);
    let p = if pos >= PLOT_SPAN as nat {
        (PLOT_SPAN - 1) as nat
    } else {
        pos
    };
    let a = seq!['░', ' '];
    let b = seq![' ', ' '];
    let ar = seq![arrow];
    let tail = seq![' ', ' ', '░', '\n'];
    assert(no_newline(a)) by {
        assert forall|i: int| 0 <= i < a.len() implies a[i] != '\n' by {
            if i == 0 {
            } else {
                assert(i == 1);
            }
        }
    }
    assert(no_newline(b)) by {
        assert forall|i: int| 0 <= i < b.len() implies b[i] != '\n' by {
            if i == 0 {
            } else {
                assert(i == 1);
            }
        }
    }
    assert(no_newline(ar));
    lemma_no_newline_rep(' ', p);
    lemma_no_newline_rep(' ', ((PLOT_SPAN - 1) as nat - p) as nat);
    let f1 = a + date_label(d);
    lemma_no_newline_concat(a, date_label(d));
    let f2 = f1 + b;
    lemma_no_newline_concat(f1, b);
    let f3 = f2 + char_rep(' ', p);
    lemma_no_newline_concat(f2, char_rep(' ', p));
    let f4 = f3 + ar;
    lemma_no_newline_concat(f3, ar);
    let f5 = f4 + char_rep(' ', ((PLOT_SPAN - 1) as nat - p) as nat);
    lemma_no_newline_concat(f4, char_rep(' ', ((PLOT_SPAN - 1) as nat - p) as nat));
    lemma_no_newline_count(f5);
    lemma_count_concat(f5, tail, '\n');
    assert(count_char(tail, '\n') == 1) by {
        let front = seq![' ', ' ', '░'];
        assert(tail.drop_last() =~= front);
        assert(tail.last() == '\n');
        assert(no_newline(front)) by {
            assert forall|i: int| 0 <= i < front.len() implies front[i] != '\n' by {
                if i == 0 {
                } else if i == 1 {
                } else {
                    assert(i == 2);
                }
            }
        }
        lemma_no_newline_count(front);
    }
    assert(spec_row_plot(d, arrow, pos) == f5 + tail);
}

/// The plot block holds exactly one line break per plotted sample.
pub proof fn lemma_plot_prefix_newlines(
    e: Seq<WeightEntry>,
    start: int,
    mn: nat,
    mx: nat,
    j: int,
)
    requires
        0 <= start <= j <= e.len(),
        forall|i: int| 0 <= i < e.len() ==> (#[trigger] e[i]).wf(),
    ensures
        count_char(spec_plot_prefix(e, start, mn, mx, j), '\n') == j - start,
    decreases j - start,
{
    if j > start {
        lemma_plot_prefix_newlines(e, start, mn, mx, j - 1);
        let arrow = if j - 1 == start {
            '↔'
        } else {
            spec_arrow(e[j - 2].weight_tenths as nat, e[j - 1].weight_tenths as nat)
        };
        assert(arrow != '\n');
        lemma_row_plot_newlines(
            e[j - 1].date,
            arrow,
            spec_position(e[j - 1].weight_tenths as nat, mn, mx),
        );
        lemma_count_concat(
            spec_plot_prefix(e, start, mn, mx, j - 1),
            spec_plot_row_at(e, start, mn, mx, j - 1),
            '\n',
        );
    }
}

} // verus!
