use iplan_views::day_view::{
    day_title_pattern, duration_label_shown, duration_label_text, title_pattern, ClosedOutcome,
    DayView, TaskSummary,
};
use iplan_views::text::{description_display, remove_spaces};

fn task(id: i64, date: i64, duration: i64) -> TaskSummary {
    TaskSummary { id, date, duration }
}

const DAY: i64 = 1_700_000_000;

#[test]
fn new_day_sums_durations_and_strips_title() {
    let day = DayView::new(DAY, " 5 Mar, Tuesday", vec![task(1, DAY, 600), task(2, DAY, 1200)]);
    assert_eq!(day.datetime(), DAY);
    assert_eq!(day.duration(), 1800);
    assert_eq!(day.name(), "5Mar,Tuesday");
    assert_eq!(day.row_count(), 2);
    assert_eq!(day.row(1), task(2, DAY, 1200));
    assert!(!day.is_dimmed());
}

#[test]
fn empty_day_is_dimmed() {
    let day = DayView::new(DAY, "1 Jan, Monday", vec![]);
    assert_eq!(day.duration(), 0);
    assert!(day.is_dimmed());
    assert_eq!(day.row_count(), 0);
}

#[test]
fn add_row_undims_and_adds_time() {
    let mut day = DayView::new(DAY, "x", vec![]);
    day.add_row(task(7, DAY, 300));
    assert!(!day.is_dimmed());
    assert_eq!(day.duration(), 300);
    assert_eq!(day.row(0), task(7, DAY, 300));
}

#[test]
fn remove_row_dims_only_when_empty_and_keeps_time() {
    let mut day = DayView::new(DAY, "x", vec![task(1, DAY, 10), task(2, DAY, 20)]);
    day.remove_row(0);
    assert_eq!(day.row_count(), 1);
    assert_eq!(day.row(0), task(2, DAY, 20));
    assert!(!day.is_dimmed());
    assert_eq!(day.duration(), 30);
    day.remove_row(5);
    assert_eq!(day.row_count(), 1);
    day.remove_row(0);
    assert!(day.is_dimmed());
}

#[test]
fn closing_a_moved_task_moves_it_out() {
    let mut day = DayView::new(DAY, "x", vec![task(1, DAY, 10), task(2, DAY, 20)]);
    let outcome = day.task_page_closed(1, task(2, DAY + 86_400, 25));
    assert_eq!(outcome, ClosedOutcome::MovedOut);
    assert_eq!(day.duration(), 5);
    assert_eq!(day.row_count(), 1);
    assert_eq!(day.row(0), task(1, DAY, 10));
}

#[test]
fn closing_a_task_that_stays_resets_its_row() {
    let mut day = DayView::new(DAY, "x", vec![task(1, DAY, 10)]);
    let outcome = day.task_page_closed(0, task(1, DAY, 99));
    assert_eq!(outcome, ClosedOutcome::RowReset);
    assert_eq!(day.row(0), task(1, DAY, 99));
    assert_eq!(day.duration(), 10);
}

#[test]
fn closing_another_task_page() {
    let mut day = DayView::new(DAY, "x", vec![task(1, DAY, 10)]);
    assert_eq!(day.task_page_closed(0, task(4, DAY, 1)), ClosedOutcome::OutsideChanged);
    assert_eq!(day.task_page_closed(0, task(4, 0, 1)), ClosedOutcome::Unrelated);
    assert_eq!(day.row(0), task(1, DAY, 10));
    assert_eq!(day.duration(), 10);
}

#[test]
fn moving_out_an_added_row_restores_the_day() {
    let mut day = DayView::new(DAY, "x", vec![task(1, DAY, 10)]);
    day.add_row(task(3, DAY, 40));
    day.task_page_closed(1, task(3, DAY - 86_400, 40));
    assert_eq!(day.duration(), 10);
    assert_eq!(day.row_count(), 1);
    assert!(!day.is_dimmed());

    let mut empty = DayView::new(DAY, "x", vec![]);
    empty.add_row(task(3, DAY, 40));
    empty.task_page_closed(0, task(3, 0, 40));
    assert_eq!(empty.duration(), 0);
    assert!(empty.is_dimmed());
}

#[test]
fn title_patterns() {
    assert_eq!(title_pattern(false, "Heute"), "%e %b, %A");
    assert_eq!(title_pattern(true, "Heute"), "%e %b, Heute");
    assert_eq!(day_title_pattern((2024, 3, 5), (2024, 3, 6), "Today"), "%e %b, %A");
    assert_eq!(day_title_pattern((2024, 3, 5), (2025, 3, 5), "Today"), "%e %b, %A");
    assert_eq!(day_title_pattern((2024, 3, 5), (2024, 3, 5), "Today"), "%e %b, Today");
    assert_eq!(day_title_pattern((2024, 3, 5), (2024, 3, 5), "Heute"), "%e %b, Heute");
}

#[test]
fn duration_label_visibility() {
    assert!(!duration_label_shown(0));
    assert!(duration_label_shown(60));
    assert!(duration_label_shown(-1));
}

#[test]
fn duration_label_texts() {
    assert_eq!(duration_label_text(0, "0m"), "");
    assert_eq!(duration_label_text(5400, "1h 30m"), "1h 30m");
}

#[test]
fn spaces_are_removed() {
    assert_eq!(remove_spaces(" 5 Mar, Today"), "5Mar,Today");
    assert_eq!(remove_spaces(""), "");
    assert_eq!(remove_spaces("   "), "");
    assert_eq!(remove_spaces(&remove_spaces("a b c")), "abc");
}

#[test]
fn description_first_line() {
    assert_eq!(description_display(""), "");
    assert_eq!(description_display("one line"), "one line");
    assert_eq!(description_display("first\nsecond"), "first");
    assert_eq!(description_display("first\r\nsecond"), "first");
    assert_eq!(description_display("\nsecond"), "");
    assert_eq!(description_display("ends\r"), "ends\r");
    assert_eq!(description_display("é ü\nx"), "é ü");
    let once = description_display("a\r\nb\nc");
    assert_eq!(description_display(&once), once);
}

#[test]
fn description_first_line_matches_std_lines() {
    for text in ["", "a", "a\nb", "a\r\nb", "\r\n", "x\r", "\n", "a\rb\nc", "ü\r\n"] {
        assert_eq!(description_display(text), text.lines().next().unwrap_or(""));
    }
}
