//! Text-graph rendering engine for a personal measurement log.
//!
//! Turns an ordered sequence of timestamped samples into a deterministic,
//! fixed-width block of text: summary rows, a proportional trend plot, and a
//! value-range header. Rendering is a pure function of the sample sequence.

use vstd::prelude::*;

pub mod textfmt;
pub mod entry;
pub mod padding;
pub mod range;
pub mod plot;
pub mod rows;
pub mod graph;

verus! {

/// Total printable width of every decorated row.
pub const GRAPH_WIDTH: usize = 80;

/// Maximum number of samples included in the plotted window.
pub const GRAPH_QTY: usize = 30;

/// Usable horizontal columns for the proportional plot.
pub const PLOT_SPAN: usize = GRAPH_WIDTH - 17;

/// Background characters before the header numbers.
pub const HEADER_START: usize = 12;

} // verus!
