use chrono::Datelike;
use chrono::Timelike;
use wt::entry::DateStamp;
use wt::entry::WeightEntry;
use wt::entry::date_label_string;
use wt::entry::datetime_label_string;
use wt::entry::weight_label_string;
use wt::padding::calc_bg_half;
use wt::padding::calc_bg_triple;
use wt::plot::calc_arrow;
use wt::plot::calc_position;
use wt::range::calc_header_values;
use wt::range::calc_min_max;
use wt::range::calc_start_index;

#[test]
fn half_split_examples() {
    assert_eq!(calc_bg_half(7), (3, 4));
    assert_eq!(calc_bg_half(8), (4, 4));
    assert_eq!(calc_bg_half(0), (0, 0));
    assert_eq!(calc_bg_half(1), (0, 1));
}

#[test]
fn triple_split_examples() {
    assert_eq!(calc_bg_triple(9), (3, 3, 3));
    assert_eq!(calc_bg_triple(10), (3, 4, 3));
    assert_eq!(calc_bg_triple(11), (4, 3, 4));
    assert_eq!(calc_bg_triple(12), (4, 4, 4));
    assert_eq!(calc_bg_triple(47), (16, 15, 16));
}

#[test]
fn start_index_windows_last_thirty() {
    let d = DateStamp::new(2024, 1, 1, 1, 0, 0);
    let few: Vec<WeightEntry> = (0..5).map(|i| WeightEntry::new(d, 1000 + i)).collect();
    assert_eq!(calc_start_index(&few), 0);
    let many: Vec<WeightEntry> = (0..40).map(|i| WeightEntry::new(d, 1000 + i)).collect();
    assert_eq!(calc_start_index(&many), 10);
    let exactly: Vec<WeightEntry> = (0..30).map(|i| WeightEntry::new(d, 1000 + i)).collect();
    assert_eq!(calc_start_index(&exactly), 0);
}

#[test]
fn min_max_floor_and_ceiling() {
    let d = DateStamp::new(2024, 1, 1, 1, 0, 0);
    let entries = vec![
        WeightEntry::new(d, 1695), // 169.5
        WeightEntry::new(d, 1712), // 171.2
    ];
    assert_eq!(calc_min_max(&entries, 0), (169, 172));
    let whole = vec![WeightEntry::new(d, 1700), WeightEntry::new(d, 1700)];
    assert_eq!(calc_min_max(&whole, 0), (170, 170));
}

#[test]
fn min_max_search_seeds() {
    // the search seeds at 1000.0 and 0.0, so readings above one thousand
    // units never lower the reported minimum below the seed
    let d = DateStamp::new(2024, 1, 1, 1, 0, 0);
    let high = vec![WeightEntry::new(d, 12000), WeightEntry::new(d, 12000)];
    assert_eq!(calc_min_max(&high, 0), (1000, 1200));
}

#[test]
fn header_values_wide_range() {
    let v = calc_header_values(100, 200);
    assert_eq!(v, vec!["100", "133", "167", "200"]);
    let w = calc_header_values(100, 105);
    assert_eq!(w, vec!["100", "102", "103", "105"]);
}

#[test]
fn header_values_narrow_range_dashes() {
    assert_eq!(calc_header_values(170, 170), vec!["170", "---", "---", "170"]);
    assert_eq!(calc_header_values(170, 172), vec!["170", "---", "---", "172"]);
    assert_eq!(calc_header_values(170, 173), vec!["170", "171", "172", "173"]);
}

#[test]
fn arrow_direction() {
    let d = DateStamp::new(2024, 1, 1, 1, 0, 0);
    let a = WeightEntry::new(d, 1700);
    let up = WeightEntry::new(d, 1701);
    let down = WeightEntry::new(d, 1699);
    let level = WeightEntry::new(d, 1700);
    assert_eq!(calc_arrow(&a, &up), '↑');
    assert_eq!(calc_arrow(&a, &down), '↓');
    assert_eq!(calc_arrow(&a, &level), '↔');
}

#[test]
fn position_is_proportional_and_clamped() {
    assert_eq!(calc_position(1000, 100, 200), 0);
    assert_eq!(calc_position(1500, 100, 200), 32); // 31.5 rounds up
    assert_eq!(calc_position(2000, 100, 200), 63);
    assert_eq!(calc_position(1250, 100, 200), 16); // 15.75 rounds to 16
    // collapsed range pins to the span's midpoint
    assert_eq!(calc_position(1700, 170, 170), 31);
}

#[test]
fn weight_label_formats_one_decimal_five_wide() {
    assert_eq!(weight_label_string(1705), "170.5");
    assert_eq!(weight_label_string(705), "070.5");
    assert_eq!(weight_label_string(50), "005.0");
    assert_eq!(weight_label_string(0), "000.0");
    assert_eq!(weight_label_string(9999), "999.9");
    // a reading of a thousand units or more widens the label
    assert_eq!(weight_label_string(10000), "1000.0");
}

#[test]
fn date_labels_match_fixed_patterns() {
    let d = DateStamp::new(2024, 1, 1, 1, 12, 30);
    assert_eq!(date_label_string(&d), "Mon Jan 01");
    assert_eq!(datetime_label_string(&d), "Mon Jan 01 2024 12:30 PM");
    let m = DateStamp::new(2025, 4, 11, 5, 0, 5);
    assert_eq!(date_label_string(&m), "Fri Apr 11");
    assert_eq!(datetime_label_string(&m), "Fri Apr 11 2025 12:05 AM");
}

#[test]
fn date_labels_agree_with_chrono_formatting() {
    let cases = [
        (2024, 1, 1, 12, 30),
        (2025, 4, 11, 0, 5),
        (1999, 12, 31, 23, 59),
        (2024, 2, 29, 11, 0),
    ];
    for (y, mo, da, h, mi) in cases {
        let nd = chrono::NaiveDate::from_ymd_opt(y, mo as u32, da as u32).unwrap();
        let ndt = nd.and_hms_opt(h as u32, mi as u32, 0).unwrap();
        let d = DateStamp::new(
            y as u32,
            mo as u8,
            da as u8,
            nd.weekday().num_days_from_sunday() as u8,
            ndt.hour() as u8,
            ndt.minute() as u8,
        );
        assert_eq!(date_label_string(&d), ndt.format("%a %b %d").to_string());
        assert_eq!(
            datetime_label_string(&d),
            ndt.format("%a %b %d %Y %I:%M %p").to_string()
        );
    }
}
