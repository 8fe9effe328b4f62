use river::{
    active_entries, expand_home, note_file_name, note_header, stats_file_name, summarize, Date,
};

fn chars(s: &str) -> Vec<char> {
    s.chars().collect()
}

#[test]
fn summary_of_recent_days() {
    let s = summarize(&vec![120, 0, 300, 600]);
    assert_eq!(s.streak, 1);
    assert_eq!(s.today_seconds, 120);
    assert_eq!(s.weekly_average, 1020 / 7);
    assert_eq!(s.chart, vec![(0, 2, 6), (2, 5, 15), (3, 10, 30)]);
}

#[test]
fn streak_counts_consecutive_days_from_today() {
    assert_eq!(summarize(&vec![60, 60, 0, 60]).streak, 2);
    assert_eq!(summarize(&vec![0, 60, 60]).streak, 0);
}

#[test]
fn summary_of_nothing() {
    let s = summarize(&Vec::new());
    assert_eq!((s.streak, s.today_seconds, s.weekly_average), (0, 0, 0));
    assert!(s.chart.is_empty());
}

#[test]
fn weekly_view_takes_first_seven_active_days() {
    let days: Vec<u64> = (1..=10).map(|d| d * 600).collect();
    let s = summarize(&days);
    assert_eq!(s.chart.len(), 7);
    assert_eq!(s.weekly_average, (1..=7).map(|d| d * 600).sum::<u64>() / 7);
    assert_eq!(s.chart[6], (6, 70, 30));
    assert_eq!(s.chart[0], (0, 10, 4));
    assert_eq!(active_entries(&vec![0, 5, 0, 7]), vec![(1, 5), (3, 7)]);
}

#[test]
fn short_days_get_a_minimum_scale() {
    let s = summarize(&vec![30]);
    assert_eq!(s.chart, vec![(0, 0, 0)]);
}

#[test]
fn home_directory_expansion() {
    assert_eq!(expand_home(&chars("~/notes"), &chars("/home/me")), chars("/home/me/notes"));
    assert_eq!(expand_home(&chars("/abs/~x"), &chars("/home/me")), chars("/abs/~x"));
    assert_eq!(expand_home(&chars(""), &chars("/home/me")), chars(""));
}

#[test]
fn dated_file_names() {
    let d = Date::new(2026, 10, 19).unwrap();
    assert_eq!(note_file_name(&d), chars("2026-10-19.md"));
    assert_eq!(stats_file_name(&d), chars(".stats-2026-10-19.toml"));
    let early = Date::new(999, 1, 5).unwrap();
    assert_eq!(note_file_name(&early), chars("0999-01-05.md"));
}

#[test]
fn note_header_spells_out_the_date() {
    let d = Date::new(2026, 10, 19).unwrap();
    assert_eq!(note_header(&d), chars("# Monday, October 19, 2026\n\n"));
    let leap = Date::new(2024, 2, 29).unwrap();
    assert_eq!(note_header(&leap), chars("# Thursday, February 29, 2024\n\n"));
}

#[test]
fn calendar_days_only() {
    assert!(Date::new(2024, 2, 29).is_some());
    assert!(Date::new(2023, 2, 29).is_none());
    assert!(Date::new(2000, 2, 29).is_some());
    assert!(Date::new(1900, 2, 29).is_none());
    assert!(Date::new(2026, 4, 31).is_none());
    assert!(Date::new(2026, 13, 1).is_none());
    assert!(Date::new(0, 1, 1).is_none());
    assert!(Date::new(2026, 12, 31).is_some());
}
