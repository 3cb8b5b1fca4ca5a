//! The graph renderer: branches on how many samples are available and
//! assembles the ordered sequence of fixed-width chart lines.

use vstd::prelude::*;
use crate::entry::WeightEntry;
use crate::entry::lemma_date_labels;
use crate::entry::lemma_weight_label;
use crate::entry::weight_label;
use crate::plot::Plot;
use crate::plot::lemma_plot_prefix_newlines;
use crate::plot::spec_arrow;
use crate::plot::spec_plot_block;
use crate::range::spec_header_labels;
use crate::range::spec_start_index;
use crate::range::win_ceil_max;
use crate::range::win_floor_min;
use crate::rows::row_background;
use crate::rows::row_header;
use crate::rows::row_latest;
use crate::rows::row_previous;
use crate::rows::row_since_start;
use crate::rows::row_single;
use crate::rows::spec_row_background;
use crate::rows::spec_row_header;
use crate::rows::spec_row_latest;
use crate::rows::spec_row_previous;
use crate::rows::spec_row_since_start;
use crate::rows::spec_row_single;
use crate::textfmt::count_char;

verus! {

/// The chart lines for a sample sequence, as one total function of it:
/// the single notice for no samples; fill around the one summary row for a
/// single sample; previous and latest summaries for two; and the full
/// chart with header, plot block and since-start summary from three on.
pub open spec fn spec_graph_lines(e: Seq<WeightEntry>) -> Seq<Seq<char>> {
    if e.len() == 0 {
        seq!["No entries to graph."@]
    } else if e.len() == 1 {
        seq![spec_row_background(), spec_row_single(e[0]), spec_row_background()]
    } else if e.len() == 2 {
        seq![
            spec_row_background(),
            spec_row_previous(e[0]),
            spec_row_latest(e[0], e[1]),
            spec_row_background(),
        ]
    } else {
        let prev = e.len() - 2;
        let last = e.len() - 1;
        let start = spec_start_index(e.len()) as int;
        let mn = win_floor_min(e, start);
        let mx = win_ceil_max(e, start);
        let labels = spec_header_labels(mn, mx);
        seq![
            spec_row_background(),
            spec_row_previous(e[prev as int]),
            spec_row_latest(e[prev as int], e[last as int]),
            spec_row_background(),
            spec_row_header(labels[0], labels[1], labels[2], labels[3]),
            spec_plot_block(e, start, mn, mx),
            spec_row_background(),
            spec_row_since_start(e[0], e[last as int]),
            spec_row_background(),
        ]
    }
}

/// The chart lines concatenated in order.
pub open spec fn concat_lines(ls: Seq<Seq<char>>) -> Seq<char>
    decreases ls.len(),
{
    if ls.len() == 0 {
        Seq::<char>::empty()
    } else {
        concat_lines(ls.drop_last()) + ls.last()
    }
}

/// The rendered chart: an ordered sequence of fixed-width text lines,
/// constructed once from a snapshot of samples and never mutated.
pub struct Graph {
    lines: Vec<String>,
}

impl View for Graph {
    type V = Seq<Seq<char>>;

    closed spec fn view(&self) -> Seq<Seq<char>> {
        self.lines@.map_values(|s: String| s@)
    }
}

impl Graph {
    /// Renders the chart for a chronologically ascending sample sequence.
    pub fn new(entries: &Vec<WeightEntry>) -> (r: Graph)
        requires
            forall|i: int| 0 <= i < entries@.len() ==> (#[trigger] entries@[i]).wf(),
        ensures
            r@ == spec_graph_lines(entries@),
    {
        let ghost e = entries@;
        match entries.len() {
            0 => {
                let mut line_buffer: Vec<String> = Vec::new();
                line_buffer.push(String::from_str("No entries to graph."));
                let g = Graph { lines: line_buffer };
                proof {
                    assert(g@ =~~= spec_graph_lines(e));
                }
                g
            },
            1 => {
                let mut line_buffer: Vec<String> = Vec::new();
                line_buffer.push(row_background());
                let first = entries[0];
                line_buffer.push(row_single(&first));
                line_buffer.push(row_background());
                let g = Graph { lines: line_buffer };
                proof {
                    assert(g@ =~~= spec_graph_lines(e));
                }
                g
            },
            2 => {
                let mut line_buffer: Vec<String> = Vec::new();
                line_buffer.push(row_background());
                let first = entries[0];
                let second = entries[1];
                line_buffer.push(row_previous(&first));
                line_buffer.push(row_latest(&first, &second));
                line_buffer.push(row_background());
                let g = Graph { lines: line_buffer };
                proof {
                    assert(g@ =~~= spec_graph_lines(e));
                }
                g
            },
            _ => {
                let prev = entries.len() - 2;
                let last = entries.len() - 1;
                let prev_entry = entries[prev];
                let last_entry = entries[last];
                let first_entry = entries[0];
                let mut line_buffer: Vec<String> = Vec::new();
                line_buffer.push(row_background());
                line_buffer.push(row_previous(&prev_entry));
                line_buffer.push(row_latest(&prev_entry, &last_entry));
                line_buffer.push(row_background());
                let plot = Plot::new(entries);
                line_buffer.push(row_header(&plot));
                line_buffer.push(plot.build_rows(entries));
                line_buffer.push(row_background());
                line_buffer.push(row_since_start(&first_entry, &last_entry));
                line_buffer.push(row_background());
                let g = Graph { lines: line_buffer };
                proof {
                    assert(g@ =~~= spec_graph_lines(e));
                }
                g
            },
        }
    }

    /// The chart text: every line concatenated in order.
    pub fn render_text(&self) -> (r: String)
        ensures
            r@ == concat_lines(self@),
    {
        let mut print_buffer = String::new();
        let mut i: usize = 0;
        proof {
            assert(self@.take(0) =~= Seq::<Seq<char>>::empty());
        }
        while i < self.lines.len()
            invariant
                i <= self.lines.len(),
                self@.len() == self.lines.len(),
                print_buffer@ == concat_lines(self@.take(i as int)),
            decreases self.lines.len() - i,
        {
            print_buffer.append(self.lines[i].as_str());
            i = i + 1;
            proof {
                assert(self@.take(i as int).drop_last() =~= self@.take(i as int - 1));
                assert(self@.take(i as int).last() == self@[i as int - 1]);
            }
        }
        proof {
            assert(self@.take(self.lines.len() as int) =~= self@);
        }
        print_buffer
    }

    /// The chart's lines, for callers that hand them on one by one.
    pub fn lines(&self) -> (r: &Vec<String>)
        ensures
            r@.map_values(|s: String| s@) == self@,
    {
        &self.lines
    }
}

/// Rendering is a pure function of the sample sequence: identical inputs
/// yield byte-identical chart text.
pub proof fn lemma_render_deterministic(e1: Seq<WeightEntry>, e2: Seq<WeightEntry>)
    requires
        e1 == e2,
    ensures
        spec_graph_lines(e1) == spec_graph_lines(e2),
        concat_lines(spec_graph_lines(e1)) == concat_lines(spec_graph_lines(e2)),
{
}

/// A chart over one sample has exactly three lines: background fill above
/// and below, and the value to one decimal place at a fixed place in the
/// centered summary line.
pub proof fn lemma_single_entry_chart(e: Seq<WeightEntry>)
    requires
        e.len() == 1,
        e[0].wf(),
        e[0].weight_tenths < 10000,
    ensures
        spec_graph_lines(e).len() == 3,
        spec_graph_lines(e)[0] == spec_row_background(),
        spec_graph_lines(e)[2] == spec_row_background(),
        spec_graph_lines(e)[1].len() == 81,
        spec_graph_lines(e)[1].subrange(60, 65) == weight_label(e[0].weight_tenths as nat),
{
    proof_single_line_shape(e[0]);
}

/// The centered single-entry line is 80 characters plus the line break,
/// and columns 60 to 64 hold the value label.
proof fn proof_single_line_shape(en: WeightEntry)
    requires
        en.wf(),
        en.weight_tenths < 10000,
    ensures
        spec_row_single(en).len() == 81,
        spec_row_single(en).subrange(60, 65) == weight_label(en.weight_tenths as nat),
{
    reveal_strlit("  SINGLE ENTRY  |  ");
    reveal_strlit("  |  ");
    reveal_strlit("  ");
    lemma_date_labels(en.date);
    lemma_weight_label(en.weight_tenths);
    let text = crate::rows::spec_single_text(en);
    assert(text.len() == 55);
    let line = spec_row_single(en);
    assert(line.len() == 81);
    let wl = weight_label(en.weight_tenths as nat);
    assert forall|k: int| 0 <= k < 5 implies line[60 + k] == wl[k] by {
        assert(line[60 + k] == text[48 + k]);
        assert(text[48 + k] == wl[k]);
    }
    assert(line.subrange(60, 65) =~= wl);
}

/// In a two-sample chart the latest row is the "LATEST" summary, and the
/// arrow between the two samples stands literally at its fixed column.
pub proof fn lemma_two_sample_arrow(e: Seq<WeightEntry>)
    requires
        e.len() == 2,
        e[0].wf(),
        e[1].wf(),
        e[1].weight_tenths < 10000,
    ensures
        spec_graph_lines(e).len() == 4,
        spec_graph_lines(e)[2] == spec_row_latest(e[0], e[1]),
        spec_graph_lines(e)[2][23] == spec_arrow(
            e[0].weight_tenths as nat,
            e[1].weight_tenths as nat,
        ),
{
    reveal_strlit("  LATEST ");
    reveal_strlit("  |  ");
    reveal_strlit("  ");
    lemma_date_labels(e[1].date);
    lemma_weight_label(e[1].weight_tenths);
    let text = crate::rows::spec_latest_text(e[0], e[1]);
    assert(text.len() == 51);
    let line = spec_row_latest(e[0], e[1]);
    assert(line[23] == text[9]);
    assert(text[9] == spec_arrow(e[0].weight_tenths as nat, e[1].weight_tenths as nat));
}

/// With three or more samples all holding one reading of at most one
/// thousand units, the plot range spans at most one whole unit and the
/// header labels collapse to the dashed-midpoint form; when that reading
/// is a whole number of units, the two bounds coincide.
pub proof fn lemma_equal_values_header(e: Seq<WeightEntry>)
    requires
        e.len() >= 3,
        forall|i: int|
            0 <= i < e.len() ==> (#[trigger] e[i]).weight_tenths == e[0].weight_tenths,
        e[0].weight_tenths <= 10000,
    ensures
        win_ceil_max(e, spec_start_index(e.len()) as int) - win_floor_min(
            e,
            spec_start_index(e.len()) as int,
        ) <= 1,
        spec_header_labels(
            win_floor_min(e, spec_start_index(e.len()) as int),
            win_ceil_max(e, spec_start_index(e.len()) as int),
        )[1] == seq!['-', '-', '-'],
        spec_header_labels(
            win_floor_min(e, spec_start_index(e.len()) as int),
            win_ceil_max(e, spec_start_index(e.len()) as int),
        )[2] == seq!['-', '-', '-'],
        e[0].weight_tenths % 10 == 0 ==> win_floor_min(e, spec_start_index(e.len()) as int)
            == win_ceil_max(e, spec_start_index(e.len()) as int),
{
    let start = spec_start_index(e.len()) as int;
    let t = e[0].weight_tenths as nat;
    crate::range::lemma_win_all_equal(e, start, e.len() as int, t);
    assert(win_floor_min(e, start) == t / 10);
    assert(win_ceil_max(e, start) == if t % 10 == 0 {
        t / 10
    } else {
        t / 10 + 1
    });
}

/// With three or more samples, the sixth chart line is the plot block with
/// exactly one line per window sample, and the eighth compares the very
/// first and the very last sample of the whole sequence.
pub proof fn lemma_window_and_since_start(e: Seq<WeightEntry>)
    requires
        e.len() >= 3,
        forall|i: int| 0 <= i < e.len() ==> (#[trigger] e[i]).wf(),
    ensures
        spec_graph_lines(e).len() == 9,
        spec_graph_lines(e)[5] == spec_plot_block(
            e,
            spec_start_index(e.len()) as int,
            win_floor_min(e, spec_start_index(e.len()) as int),
            win_ceil_max(e, spec_start_index(e.len()) as int),
        ),
        count_char(spec_graph_lines(e)[5], '\n') == e.len() - spec_start_index(e.len()),
        spec_graph_lines(e)[7] == spec_row_since_start(e[0], e[e.len() - 1]),
{
    let start = spec_start_index(e.len()) as int;
    lemma_plot_prefix_newlines(
        e,
        start,
        win_floor_min(e, start),
        win_ceil_max(e, start),
        e.len() as int,
    );
}

} // verus!
