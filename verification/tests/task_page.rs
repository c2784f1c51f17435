use iplan_views::task_page::{
    expected_record_rows, newest_record, record_order, subtask_filter, subtask_order, FirstRow,
    RecordDraft, RecordSummary, ReminderDraft, RowOrder, SubtaskSummary, TaskInfo, TaskPage,
};

fn info(description: &str, date: i64) -> TaskInfo {
    TaskInfo { id: 42, project: 3, date, description: description.to_string() }
}

fn sub(id: i64, position: i32) -> SubtaskSummary {
    SubtaskSummary { id, position, suspended: false }
}

fn rec(id: i64, start: i64) -> RecordSummary {
    RecordSummary { id, start }
}

#[test]
fn new_page_shows_task() {
    let page = TaskPage::new(info("Buy milk\nand eggs", 1_000), vec![5], vec![sub(1, 0)], vec![rec(9, 10)]);
    let task = page.task();
    assert_eq!(task.id, 42);
    assert_eq!(task.project, 3);
    assert_eq!(task.date, 1_000);
    assert_eq!(task.description, "Buy milk\nand eggs");
    assert_eq!(page.subtitle(), "Buy milk");
    assert_eq!(page.date_shown(), Some(1_000));
    assert_eq!(page.reminders(), vec![5]);
    assert_eq!(page.subtasks(), vec![sub(1, 0)]);
    assert_eq!(page.records(), vec![rec(9, 10)]);
    assert!(page.shows_subtasks());
}

#[test]
fn page_without_date_shows_none() {
    let page = TaskPage::new(info("", 0), vec![], vec![], vec![]);
    assert_eq!(page.date_shown(), None);
    assert_eq!(page.subtitle(), "");
}

#[test]
fn add_record_and_reminder() {
    let mut page = TaskPage::new(info("", 0), vec![], vec![], vec![]);
    page.add_record(rec(1, 100));
    page.add_record(rec(2, 50));
    page.add_reminder(8);
    assert_eq!(page.records(), vec![rec(1, 100), rec(2, 50)]);
    assert_eq!(page.reminders(), vec![8]);
}

#[test]
fn set_date_updates_task_and_row() {
    let mut page = TaskPage::new(info("", 0), vec![], vec![], vec![]);
    page.set_date(86_400);
    assert_eq!(page.task().date, 86_400);
    assert_eq!(page.date_shown(), Some(86_400));
}

#[test]
fn description_edits() {
    let mut page = TaskPage::new(info("old", 0), vec![], vec![], vec![]);
    assert!(!page.description_changed("old"));
    assert!(page.description_changed("new line\r\nmore"));
    assert_eq!(page.task().description, "new line\r\nmore");
    assert_eq!(page.subtitle(), "new line");
    assert!(!page.description_changed("new line\r\nmore"));
    assert_eq!(page.subtitle(), "new line");
}

#[test]
fn list_menu_selection() {
    let mut page = TaskPage::new(info("", 0), vec![], vec![], vec![]);
    page.select_list(1);
    assert!(!page.shows_subtasks());
    page.select_list(0);
    assert!(page.shows_subtasks());
}

#[test]
fn drafts() {
    let page = TaskPage::new(info("", 0), vec![], vec![], vec![]);
    assert_eq!(
        page.new_reminder(1_700_000_000),
        ReminderDraft { id: 0, datetime: 1_700_000_000, sent: false, task: 42, priority: 2 }
    );
    assert_eq!(page.new_record(77), RecordDraft { id: 0, start: 77, duration: 0, task: 42 });
    assert_eq!(page.new_record(u64::MAX).start, -1);
    let draft = page.new_subtask();
    assert_eq!(draft.name, "");
    assert_eq!(draft.project, 3);
    assert_eq!(draft.section, 0);
    assert_eq!(draft.parent, 42);
}

#[test]
fn subtask_added_at_top_and_bottom() {
    let mut page = TaskPage::new(info("", 0), vec![], vec![sub(1, 1), sub(2, 0)], vec![]);
    page.add_subtask_top(sub(3, 5));
    assert_eq!(page.subtasks(), vec![sub(3, 5), sub(1, 1), sub(2, 0)]);
    let added = page.add_subtask_bottom(sub(4, 9));
    assert_eq!(added, sub(4, 0));
    assert_eq!(page.subtasks(), vec![sub(3, 6), sub(1, 2), sub(2, 1), sub(4, 0)]);
    for s in &page.subtasks()[..3] {
        assert_eq!(subtask_order(Some(added.position), Some(s.position)), RowOrder::Larger);
    }
}

#[test]
fn subtask_ordering() {
    assert_eq!(subtask_order(None, Some(1)), RowOrder::Larger);
    assert_eq!(subtask_order(None, None), RowOrder::Larger);
    assert_eq!(subtask_order(Some(1), None), RowOrder::Smaller);
    assert_eq!(subtask_order(Some(1), Some(2)), RowOrder::Larger);
    assert_eq!(subtask_order(Some(2), Some(1)), RowOrder::Smaller);
    assert_eq!(subtask_order(Some(2), Some(2)), RowOrder::Smaller);
}

#[test]
fn record_ordering() {
    assert_eq!(record_order(10, 5), RowOrder::Smaller);
    assert_eq!(record_order(5, 10), RowOrder::Larger);
    assert_eq!(record_order(5, 5), RowOrder::Larger);
}

#[test]
fn subtask_filter_decisions() {
    let d = subtask_filter(FirstRow::AddButton, true, None);
    assert!(!d.add_button_visible);
    assert!(d.row_visible);
    let d = subtask_filter(FirstRow::Subtask { suspended: false, moving_out: false }, false, Some(true));
    assert!(d.add_button_visible);
    assert!(!d.row_visible);
    let d = subtask_filter(FirstRow::Subtask { suspended: true, moving_out: false }, true, Some(false));
    assert!(!d.add_button_visible);
    assert!(d.row_visible);
    let d = subtask_filter(FirstRow::Subtask { suspended: false, moving_out: true }, true, None);
    assert!(!d.add_button_visible);
    let d = subtask_filter(FirstRow::Subtask { suspended: false, moving_out: false }, true, None);
    assert!(d.add_button_visible);
}

#[test]
fn newest_record_is_last_with_largest_id() {
    assert_eq!(newest_record(&vec![rec(3, 0), rec(9, 1), rec(2, 2)]), 1);
    assert_eq!(newest_record(&vec![rec(9, 0), rec(9, 1), rec(2, 2)]), 1);
    assert_eq!(newest_record(&vec![rec(1, 0)]), 0);
}

#[test]
fn record_row_counts() {
    assert_eq!(expected_record_rows(0), 1);
    assert_eq!(expected_record_rows(4), 5);
    assert_eq!(expected_record_rows(u32::MAX as usize), 0);
}

#[test]
fn refresh_records_appends_newest_when_count_differs() {
    let mut page = TaskPage::new(info("", 0), vec![], vec![], vec![rec(1, 10)]);
    let fresh = vec![rec(1, 10), rec(4, 30), rec(2, 20)];
    assert_eq!(page.refresh_records(4, &fresh), None);
    assert_eq!(page.records(), vec![rec(1, 10)]);
    assert_eq!(page.refresh_records(2, &fresh), Some(rec(4, 30)));
    assert_eq!(page.records(), vec![rec(1, 10), rec(4, 30)]);
    assert_eq!(page.refresh_records(1, &vec![]), None);
}
