//! The decorated text rows: background fill, centered summary rows, and
//! the value-range header row.

use vstd::prelude::*;
use crate::GRAPH_WIDTH;
use crate::HEADER_START;
use crate::entry::WeightEntry;
use crate::entry::datetime_label;
use crate::entry::datetime_label_string;
use crate::entry::lemma_date_labels;
use crate::entry::lemma_weight_label;
use crate::entry::weight_label;
use crate::entry::weight_label_string;
use crate::padding::calc_bg_half;
use crate::padding::calc_bg_triple;
use crate::padding::spec_half;
use crate::padding::spec_triple;
use crate::plot::Plot;
use crate::plot::arrow_piece;
use crate::plot::calc_arrow;
use crate::plot::spec_arrow;
use crate::textfmt::char_rep;
use crate::textfmt::repeat_piece;

verus! {

/// The full-width background fill line.
pub open spec fn spec_row_background() -> Seq<char> {
    char_rep('░', GRAPH_WIDTH as nat) + seq!['\n']
}

/// Builds the background fill line.
pub fn row_background() -> (r: String)
    ensures
        r@ == spec_row_background(),
{
    proof {
        reveal_strlit("░");
        reveal_strlit("\n");
    }
    let mut s = repeat_piece("░", GRAPH_WIDTH);
    s.append("\n");
    proof {
        assert(s@ =~= spec_row_background());
    }
    s
}

/// Text centered in the background fill, the smaller fill half on the
/// left, terminated by a line break.
pub open spec fn spec_centered_row(text: Seq<char>) -> Seq<char> {
    let n = if text.len() <= GRAPH_WIDTH as nat {
        ((GRAPH_WIDTH as nat) - text.len()) as nat
    } else {
        0nat
    };
    char_rep('░', spec_half(n).0) + text + char_rep('░', spec_half(n).1) + seq!['\n']
}

/// Centers a text inside the background fill.
fn centered_row(text: &String) -> (r: String)
    requires
        text@.len() <= GRAPH_WIDTH as nat,
    ensures
        r@ == spec_centered_row(text@),
{
    proof {
        reveal_strlit("░");
        reveal_strlit("\n");
    }
    let len = text.as_str().unicode_len();
    let (lt_ct, rt_ct) = calc_bg_half(GRAPH_WIDTH - len);
    let mut s = repeat_piece("░", lt_ct);
    s.append(text.as_str());
    let right = repeat_piece("░", rt_ct);
    s.append(right.as_str());
    s.append("\n");
    proof {
        assert(s@ =~= spec_centered_row(text@));
    }
    s
}

/// A centered row is always the full graph width plus its line break.
pub proof fn lemma_centered_row_len(text: Seq<char>)
    requires
        text.len() <= GRAPH_WIDTH as nat,
    ensures
        spec_centered_row(text).len() == (GRAPH_WIDTH + 1) as nat,
{
}

/// The single-entry summary text.
pub open spec fn spec_single_text(en: WeightEntry) -> Seq<char> {
    "  SINGLE ENTRY  |  "@ + datetime_label(en.date) + "  |  "@ + weight_label(
        en.weight_tenths as nat,
    ) + "  "@
}

/// The centered single-entry summary row.
pub open spec fn spec_row_single(en: WeightEntry) -> Seq<char> {
    spec_centered_row(spec_single_text(en))
}

/// Builds the single-entry summary row.
pub fn row_single(entry: &WeightEntry) -> (r: String)
    requires
        entry.wf(),
    ensures
        r@ == spec_row_single(*entry),
{
    let mut text = String::new();
    text.append("  SINGLE ENTRY  |  ");
    let dt = datetime_label_string(&entry.date);
    text.append(dt.as_str());
    text.append("  |  ");
    let wl = weight_label_string(entry.weight_tenths);
    text.append(wl.as_str());
    text.append("  ");
    proof {
        reveal_strlit("  SINGLE ENTRY  |  ");
        reveal_strlit("  |  ");
        reveal_strlit("  ");
        lemma_date_labels(entry.date);
        lemma_weight_label(entry.weight_tenths);
        assert(text@ =~= spec_single_text(*entry));
    }
    centered_row(&text)
}

/// The previous-entry summary text.
pub open spec fn spec_previous_text(en: WeightEntry) -> Seq<char> {
    "  PREVIOUS  |  "@ + datetime_label(en.date) + "  |  "@ + weight_label(en.weight_tenths as nat)
        + "  "@
}

/// The centered previous-entry summary row.
pub open spec fn spec_row_previous(en: WeightEntry) -> Seq<char> {
    spec_centered_row(spec_previous_text(en))
}

/// Builds the previous-entry summary row.
pub fn row_previous(entry: &WeightEntry) -> (r: String)
    requires
        entry.wf(),
    ensures
        r@ == spec_row_previous(*entry),
{
    let mut text = String::new();
    text.append("  PREVIOUS  |  ");
    let dt = datetime_label_string(&entry.date);
    text.append(dt.as_str());
    text.append("  |  ");
    let wl = weight_label_string(entry.weight_tenths);
    text.append(wl.as_str());
    text.append("  ");
    proof {
        reveal_strlit("  PREVIOUS  |  ");
        reveal_strlit("  |  ");
        reveal_strlit("  ");
        lemma_date_labels(entry.date);
        lemma_weight_label(entry.weight_tenths);
        assert(text@ =~= spec_previous_text(*entry));
    }
    centered_row(&text)
}

/// The latest-entry summary text: the "LATEST" tag carries the arrow
/// against the previous entry.
pub open spec fn spec_latest_text(prev: WeightEntry, latest: WeightEntry) -> Seq<char> {
    "  LATEST "@ + seq![spec_arrow(prev.weight_tenths as nat, latest.weight_tenths as nat)]
        + "  |  "@ + datetime_label(latest.date) + "  |  "@ + weight_label(
        latest.weight_tenths as nat,
    ) + "  "@
}

/// The centered latest-entry summary row.
pub open spec fn spec_row_latest(prev: WeightEntry, latest: WeightEntry) -> Seq<char> {
    spec_centered_row(spec_latest_text(prev, latest))
}

/// Builds the latest-entry summary row.
pub fn row_latest(prev_entry: &WeightEntry, latest_entry: &WeightEntry) -> (r: String)
    requires
        latest_entry.wf(),
    ensures
        r@ == spec_row_latest(*prev_entry, *latest_entry),
{
    let arrow = calc_arrow(prev_entry, latest_entry);
    let mut text = String::new();
    text.append("  LATEST ");
    text.append(arrow_piece(arrow));
    text.append("  |  ");
    let dt = datetime_label_string(&latest_entry.date);
    text.append(dt.as_str());
    text.append("  |  ");
    let wl = weight_label_string(latest_entry.weight_tenths);
    text.append(wl.as_str());
    text.append("  ");
    proof {
        reveal_strlit("  LATEST ");
        reveal_strlit("  |  ");
        reveal_strlit("  ");
        lemma_date_labels(latest_entry.date);
        lemma_weight_label(latest_entry.weight_tenths);
        assert(text@ =~= spec_latest_text(*prev_entry, *latest_entry));
    }
    centered_row(&text)
}

/// The since-start summary text: the arrow from the very first entry to
/// the latest one, beside the first entry's date and value.
pub open spec fn spec_since_start_text(first: WeightEntry, latest: WeightEntry) -> Seq<char> {
    "  "@ + seq![spec_arrow(first.weight_tenths as nat, latest.weight_tenths as nat)]
        + " SINCE START  |  "@ + datetime_label(first.date) + "  |  "@ + weight_label(
        first.weight_tenths as nat,
    ) + "  "@
}

/// The centered since-start summary row.
pub open spec fn spec_row_since_start(first: WeightEntry, latest: WeightEntry) -> Seq<char> {
    spec_centered_row(spec_since_start_text(first, latest))
}

/// Builds the since-start summary row.
pub fn row_since_start(first_entry: &WeightEntry, latest_entry: &WeightEntry) -> (r: String)
    requires
        first_entry.wf(),
    ensures
        r@ == spec_row_since_start(*first_entry, *latest_entry),
{
    let arrow = calc_arrow(first_entry, latest_entry);
    let mut text = String::new();
    text.append("  ");
    text.append(arrow_piece(arrow));
    text.append(" SINCE START  |  ");
    let dt = datetime_label_string(&first_entry.date);
    text.append(dt.as_str());
    text.append("  |  ");
    let wl = weight_label_string(first_entry.weight_tenths);
    text.append(wl.as_str());
    text.append("  ");
    proof {
        reveal_strlit("  ");
        reveal_strlit(" SINCE START  |  ");
        reveal_strlit("  |  ");
        lemma_date_labels(first_entry.date);
        lemma_weight_label(first_entry.weight_tenths);
        assert(text@ =~= spec_since_start_text(*first_entry, *latest_entry));
    }
    centered_row(&text)
}

/// The header row: the four labels past a fixed left offset, the filler
/// between them distributed by triple-split.
pub open spec fn spec_row_header(
    l0: Seq<char>,
    l1: Seq<char>,
    l2: Seq<char>,
    l3: Seq<char>,
) -> Seq<char> {
    let n = ((GRAPH_WIDTH as nat) - (4 * 5 + 1 + HEADER_START as nat)) as nat;
    char_rep('░', HEADER_START as nat) + seq![' '] + l0 + seq![' '] + char_rep(
        '░',
        spec_triple(n).0,
    ) + seq![' '] + l1 + seq![' '] + char_rep('░', spec_triple(n).1) + seq![' '] + l2 + seq![' ']
        + char_rep('░', spec_triple(n).2) + seq![' '] + l3 + seq![' ', '░', '\n']
}

/// Builds the header row from the plot geometry's four labels.
pub fn row_header(plot: &Plot) -> (r: String)
    requires
        plot.header_values@.len() == 4,
    ensures
        r@ == spec_row_header(
            plot.header_values@[0]@,
            plot.header_values@[1]@,
            plot.header_values@[2]@,
            plot.header_values@[3]@,
        ),
{
    proof {
        reveal_strlit("░");
        reveal_strlit(" ");
        reveal_strlit(" ░\n");
    }
    let chars_needed = GRAPH_WIDTH - ((plot.header_values.len() * 5) + 1 + HEADER_START);
    let spaces = calc_bg_triple(chars_needed);
    let mut s = repeat_piece("░", HEADER_START);
    s.append(" ");
    s.append(plot.header_values[0].as_str());
    s.append(" ");
    let f0 = repeat_piece("░", spaces.0);
    s.append(f0.as_str());
    s.append(" ");
    s.append(plot.header_values[1].as_str());
    s.append(" ");
    let f1 = repeat_piece("░", spaces.1);
    s.append(f1.as_str());
    s.append(" ");
    s.append(plot.header_values[2].as_str());
    s.append(" ");
    let f2 = repeat_piece("░", spaces.2);
    s.append(f2.as_str());
    s.append(" ");
    s.append(plot.header_values[3].as_str());
    s.append(" ░\n");
    proof {
        assert(" ░\n"@ =~= seq![' ', '░', '\n']);
        assert(s@ =~= spec_row_header(
            plot.header_values@[0]@,
            plot.header_values@[1]@,
            plot.header_values@[2]@,
            plot.header_values@[3]@,
        ));
    }
    s
}

} // verus!
