use wt::entry::DateStamp;
use wt::entry::WeightEntry;
use wt::graph::Graph;

fn bg() -> String {
    format!("{}\n", "░".repeat(80))
}

fn stamp(year: u32, month: u8, day: u8, weekday: u8, hour: u8, minute: u8) -> DateStamp {
    DateStamp::new(year, month, day, weekday, hour, minute)
}

fn entry(d: DateStamp, tenths: u32) -> WeightEntry {
    WeightEntry::new(d, tenths)
}

#[test]
fn empty_graph_is_single_notice() {
    let entries: Vec<WeightEntry> = Vec::new();
    let g = Graph::new(&entries);
    assert_eq!(g.render_text(), "No entries to graph.");
    assert_eq!(g.lines().len(), 1);
}

#[test]
fn single_entry_graph_has_three_lines() {
    let d = stamp(2024, 1, 1, 1, 12, 30);
    let entries = vec![entry(d, 1705)];
    let g = Graph::new(&entries);
    let lines = g.lines();
    assert_eq!(lines.len(), 3);
    assert_eq!(lines[0], bg());
    assert_eq!(lines[2], bg());
    assert!(lines[1].contains("170.5"));
    let text = "  SINGLE ENTRY  |  Mon Jan 01 2024 12:30 PM  |  170.5  ";
    let expected = format!("{}{}{}\n", "░".repeat(12), text, "░".repeat(13));
    assert_eq!(lines[1], expected);
}

#[test]
fn two_entry_graph_reflects_arrow_in_latest_row() {
    let d0 = stamp(2024, 1, 1, 1, 8, 0);
    let d1 = stamp(2024, 1, 2, 2, 8, 0);
    let up = Graph::new(&vec![entry(d0, 1700), entry(d1, 1712)]);
    let row = &up.lines()[2];
    assert_eq!(row.chars().nth(23), Some('↑'));
    let down = Graph::new(&vec![entry(d0, 1700), entry(d1, 1689)]);
    assert_eq!(down.lines()[2].chars().nth(23), Some('↓'));
    let level = Graph::new(&vec![entry(d0, 1700), entry(d1, 1700)]);
    assert_eq!(level.lines()[2].chars().nth(23), Some('↔'));
}

#[test]
fn two_entry_graph_rows() {
    let d0 = stamp(2024, 3, 4, 1, 7, 5);
    let d1 = stamp(2024, 3, 5, 2, 7, 45);
    let g = Graph::new(&vec![entry(d0, 801), entry(d1, 795)]);
    let lines = g.lines();
    assert_eq!(lines.len(), 4);
    assert_eq!(lines[0], bg());
    assert_eq!(lines[3], bg());
    let prev_text = "  PREVIOUS  |  Mon Mar 04 2024 07:05 AM  |  080.1  ";
    let expected_prev = format!("{}{}{}\n", "░".repeat(14), prev_text, "░".repeat(15));
    assert_eq!(lines[1], expected_prev);
    let latest_text = "  LATEST ↓  |  Tue Mar 05 2024 07:45 AM  |  079.5  ";
    let expected_latest = format!("{}{}{}\n", "░".repeat(14), latest_text, "░".repeat(15));
    assert_eq!(lines[2], expected_latest);
}

#[test]
fn three_entry_graph_full_output() {
    let d0 = stamp(2025, 4, 10, 4, 6, 0);
    let d1 = stamp(2025, 4, 11, 5, 6, 30);
    let d2 = stamp(2025, 4, 12, 6, 18, 15);
    let entries = vec![entry(d0, 1000), entry(d1, 1500), entry(d2, 2000)];
    let g = Graph::new(&entries);
    let lines = g.lines();
    assert_eq!(lines.len(), 9);
    assert_eq!(lines[0], bg());
    assert_eq!(lines[3], bg());
    assert_eq!(lines[6], bg());
    assert_eq!(lines[8], bg());
    let prev_text = "  PREVIOUS  |  Fri Apr 11 2025 06:30 AM  |  150.0  ";
    assert_eq!(
        lines[1],
        format!("{}{}{}\n", "░".repeat(14), prev_text, "░".repeat(15))
    );
    let latest_text = "  LATEST ↑  |  Sat Apr 12 2025 06:15 PM  |  200.0  ";
    assert_eq!(
        lines[2],
        format!("{}{}{}\n", "░".repeat(14), latest_text, "░".repeat(15))
    );
    // min 100, max 200: change 33.3 rounds to 33, labels 100/133/167/200
    let header = format!(
        "{} 100 {} 133 {} 167 {} 200 ░\n",
        "░".repeat(12),
        "░".repeat(16),
        "░".repeat(15),
        "░".repeat(16)
    );
    assert_eq!(lines[4], header);
    // positions across a 63-column span: 0, 32 (rounded up from 31.5), 63
    let row0 = format!("░ Thu Apr 10  ↔{}  ░\n", " ".repeat(62));
    let row1 = format!("░ Fri Apr 11  {}↑{}  ░\n", " ".repeat(32), " ".repeat(30));
    let row2 = format!("░ Sat Apr 12  {}↑  ░\n", " ".repeat(62));
    assert_eq!(lines[5], format!("{}{}{}", row0, row1, row2));
    let since_text = "  ↑ SINCE START  |  Thu Apr 10 2025 06:00 AM  |  100.0  ";
    assert_eq!(
        lines[7],
        format!("{}{}{}\n", "░".repeat(12), since_text, "░".repeat(12))
    );
}

#[test]
fn equal_values_collapse_header_labels() {
    let d = stamp(2024, 6, 1, 6, 9, 0);
    let entries = vec![entry(d, 1700), entry(d, 1700), entry(d, 1700)];
    let g = Graph::new(&entries);
    let header = format!(
        "{} 170 {} --- {} --- {} 170 ░\n",
        "░".repeat(12),
        "░".repeat(16),
        "░".repeat(15),
        "░".repeat(16)
    );
    assert_eq!(g.lines()[4], header);
}

#[test]
fn window_of_thirty_from_forty_samples() {
    let mut entries: Vec<WeightEntry> = Vec::new();
    for i in 0..40u32 {
        let d = stamp(2024, 1, (1 + (i % 28)) as u8, (i % 7) as u8, 8, 0);
        entries.push(entry(d, 1500 + i));
    }
    let g = Graph::new(&entries);
    let lines = g.lines();
    assert_eq!(lines.len(), 9);
    // one plot row per window sample, thirty in all
    let plot_rows = lines[5].matches('\n').count();
    assert_eq!(plot_rows, 30);
    // the since-start row compares sample 0 of the full sequence, value 150.0
    assert!(lines[7].contains("SINCE START"));
    assert!(lines[7].contains("150.0"));
    // the latest row holds the last sample of the full sequence, value 153.9
    assert!(lines[2].contains("153.9"));
}

#[test]
fn rendering_is_deterministic() {
    let d0 = stamp(2024, 2, 5, 1, 10, 10);
    let d1 = stamp(2024, 2, 6, 2, 10, 10);
    let d2 = stamp(2024, 2, 7, 3, 10, 10);
    let entries = vec![entry(d0, 812), entry(d1, 815), entry(d2, 810)];
    let first = Graph::new(&entries).render_text();
    let second = Graph::new(&entries).render_text();
    assert_eq!(first, second);
}

#[test]
fn render_text_concatenates_lines() {
    let d = stamp(2024, 1, 1, 1, 0, 0);
    let entries = vec![entry(d, 1705)];
    let g = Graph::new(&entries);
    let joined: String = g.lines().iter().map(|l| l.as_str()).collect::<Vec<&str>>().join("");
    assert_eq!(g.render_text(), joined);
}
