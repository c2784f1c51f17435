//! The page of one task: its date and description, its reminders, its subtasks
//! (kept in the order of their positions) and its time records (newest first).
use vstd::prelude::*;

use crate::text::{description_display, first_line};

verus! {

/// The task a page shows: its id, its project, its date (a unix time, `0` for none) and
/// its description.
pub struct TaskInfo {
    pub id: i64,
    pub project: i64,
    pub date: i64,
    pub description: String,
}

/// What the page reads of a subtask: its id, its position among its siblings and whether
/// it is suspended.
#[derive(Clone, Copy, Debug, PartialEq, Eq, Structural)]
pub struct SubtaskSummary {
    pub id: i64,
    pub position: i32,
    pub suspended: bool,
}

/// What the page reads of a time record: its id and when it started (a unix time).
#[derive(Clone, Copy, Debug, PartialEq, Eq, Structural)]
pub struct RecordSummary {
    pub id: i64,
    pub start: i64,
}

/// A reminder about to be created: no id yet, when it fires, whether it was already
/// sent, the task it belongs to and its priority.
#[derive(Clone, Copy, Debug, PartialEq, Eq, Structural)]
pub struct ReminderDraft {
    pub id: i64,
    pub datetime: i64,
    pub sent: bool,
    pub task: i64,
    pub priority: u8,
}

/// A time record about to be created: no id yet, its start, its duration and its task.
#[derive(Clone, Copy, Debug, PartialEq, Eq, Structural)]
pub struct RecordDraft {
    pub id: i64,
    pub start: i64,
    pub duration: i64,
    pub task: i64,
}

/// A subtask about to be created: its name, project, section and parent task.
pub struct SubtaskDraft {
    pub name: String,
    pub project: i64,
    pub section: i64,
    pub parent: i64,
}

/// Where a row goes relative to another one in a sorted list.
#[derive(Clone, Copy, Debug, PartialEq, Eq, Structural)]
pub enum RowOrder {
    /// The first row comes before the second.
    Smaller,
    /// The two rows are equal.
    Equal,
    /// The first row comes after the second.
    Larger,
}

/// The first row of the subtask list.
#[derive(Clone, Copy, Debug, PartialEq, Eq, Structural)]
pub enum FirstRow {
    /// The row that adds a subtask at the bottom: there is no subtask above it.
    AddButton,
    /// A subtask row, whose task may be suspended and which may be moving out.
    Subtask { suspended: bool, moving_out: bool },
}

/// The decision of the subtask list's filter for one row.
#[derive(Clone, Copy, Debug, PartialEq, Eq, Structural)]
pub struct FilterDecision {
    /// Whether the row that adds a subtask at the bottom is shown afterwards.
    pub add_button_visible: bool,
    /// Whether the filtered row is shown.
    pub row_visible: bool,
}

/// The order of two rows of the subtask list, each given by the position of its subtask
/// (`None` for a row that is not a subtask): rows that are not subtasks go last, and a
/// subtask with a smaller position goes after one with a larger position.
pub open spec fn subtask_order_spec(first: Option<i32>, second: Option<i32>) -> RowOrder {
    match (first, second) {
        (None, _) => RowOrder::Larger,
        (Some(_), None) => RowOrder::Smaller,
        (Some(a), Some(b)) => if a < b {
            RowOrder::Larger
        } else {
            RowOrder::Smaller
        },
    }
}

/// Compares two rows of the subtask list, each given by the position of its subtask
/// (`None` for a row that is not a subtask).
pub fn subtask_order(first: Option<i32>, second: Option<i32>) -> (order: RowOrder)
    ensures
        order == subtask_order_spec(first, second),
        first is None ==> order == RowOrder::Larger,
        first is Some && second is None ==> order == RowOrder::Smaller,
        first is Some && second is Some ==> ((order == RowOrder::Larger) == (first->0 < second->0)),
        order != RowOrder::Equal,
{
    let a = match first {
        Some(a) => a,
        None => {
            return RowOrder::Larger;
        },
    };
    let b = match second {
        Some(b) => b,
        None => {
            return RowOrder::Smaller;
        },
    };
    if a < b {
        RowOrder::Larger
    } else {
        RowOrder::Smaller
    }
}

/// Compares two rows of the record list by the starts of their records: the later start
/// comes first.
pub fn record_order(first_start: i64, second_start: i64) -> (order: RowOrder)
    ensures
        order == (if first_start > second_start {
            RowOrder::Smaller
        } else {
            RowOrder::Larger
        }),
{
    if first_start > second_start {
        RowOrder::Smaller
    } else {
        RowOrder::Larger
    }
}

/// The filter of the subtask list, for a row that is a subtask whose suspension is
/// `row_suspended` (`None` for a row that is not a subtask), when the first row of the
/// list is `first` and the add button is `add_button_visible`: the add button hides when
/// no subtask is above it, shows again when it was hidden, and hides when the first
/// subtask is suspended or moving out; suspended subtasks are hidden.
pub fn subtask_filter(first: FirstRow, add_button_visible: bool, row_suspended: Option<bool>) -> (decision: FilterDecision)
    ensures
        decision.add_button_visible == (match first {
            FirstRow::AddButton => false,
            FirstRow::Subtask { suspended, moving_out } => if !add_button_visible {
                true
            } else {
                !(suspended || moving_out)
            },
        }),
        decision.row_visible == (match row_suspended {
            Some(s) => !s,
            None => true,
        }),
{
    let mut button = add_button_visible;
    match first {
        FirstRow::AddButton => {
            button = false;
        },
        FirstRow::Subtask { suspended, moving_out } => {
            if !add_button_visible {
                button = true;
            } else if suspended || moving_out {
                button = false;
            }
        },
    }
    let row_visible = match row_suspended {
        Some(s) => !s,
        None => true,
    };
    FilterDecision { add_button_visible: button, row_visible }
}

/// The state of a task page as the specifications see it.
pub struct TaskPageModel {
    pub task_id: i64,
    pub project: i64,
    /// The date of the task, a unix time (`0` for none).
    pub date: i64,
    pub description: Seq<char>,
    /// The subtitle of the description row.
    pub subtitle: Seq<char>,
    /// The date the date row shows, if any.
    pub date_shown: Option<i64>,
    /// The ids of the reminders listed, in the order they were added.
    pub reminders: Seq<i64>,
    /// The subtasks listed, in the order they were added.
    pub subtasks: Seq<SubtaskSummary>,
    /// The records listed, in the order they were added.
    pub records: Seq<RecordSummary>,
    /// Whether the subtask list is the one shown (else the record list is).
    pub shows_subtasks: bool,
}

impl TaskPageModel {
    /// The subtitle of the description row is the first line of the description.
    pub open spec fn consistent(self) -> bool {
        self.subtitle == first_line(self.description)
    }

    /// The page after the description was edited to `text`: an edit that changes it updates
    /// the description and its subtitle.
    pub open spec fn with_description(self, text: Seq<char>) -> TaskPageModel {
        if text != self.description {
            TaskPageModel { description: text, subtitle: first_line(text), ..self }
        } else {
            self
        }
    }

    /// The subtasks after one was added at the bottom: the others move one position up and
    /// the new one, at position 0, goes to the end of the list.
    pub open spec fn with_subtask_at_bottom(self, subtask: SubtaskSummary) -> TaskPageModel {
        TaskPageModel {
            subtasks: Seq::new(
                self.subtasks.len(),
                |i: int| SubtaskSummary { position: (self.subtasks[i].position + 1) as i32, ..self.subtasks[i] },
            ).push(SubtaskSummary { position: 0, ..subtask }),
            ..self
        }
    }
}

/// No subtask listed has the largest position an `i32` holds.
pub open spec fn positions_below_max(subtasks: Seq<SubtaskSummary>) -> bool {
    forall|i: int| 0 <= i < subtasks.len() ==> #[trigger] subtasks[i].position < i32::MAX
}

/// The number of rows a record list holds when it shows `count` records: one more than the
/// records, as a `u32` counts it.
pub open spec fn expected_rows(count: nat) -> u32 {
    ((count + 1) % 0x1_0000_0000) as u32
}

/// `records[index]` has the largest id of `records`, and no later record has that id.
pub open spec fn is_newest(records: Seq<RecordSummary>, index: int) -> bool {
    &&& 0 <= index < records.len()
    &&& forall|j: int| 0 <= j < records.len() ==> #[trigger] records[j].id <= records[index].id
    &&& forall|j: int| index < j < records.len() ==> #[trigger] records[j].id < records[index].id
}

/// The index of the record that a sort by id, which keeps records with equal ids in their
/// order, puts last: the last of those with the largest id.
pub fn newest_record(records: &Vec<RecordSummary>) -> (index: usize)
    requires
        records@.len() > 0,
    ensures
        is_newest(records@, index as int),
{
    let mut best: usize = 0;
    let mut i: usize = 1;
    while i < records.len()
        invariant
            0 < i <= records@.len(),
            best < i,
            forall|j: int| 0 <= j < i ==> #[trigger] records@[j].id <= records@[best as int].id,
            forall|j: int| best < j < i ==> #[trigger] records@[j].id < records@[best as int].id,
        decreases records@.len() - i,
    {
        if records[i].id >= records[best].id {
            best = i;
        }
        i = i + 1;
    }
    best
}

/// The row count a record list of `count` records has, counted in a `u32` as the list
/// counts its rows.
pub fn expected_record_rows(count: usize) -> (rows: u32)
    ensures
        rows == expected_rows(count as nat),
        count < u32::MAX ==> rows as int == count + 1,
        count == u32::MAX ==> rows == 0,
{
    let c: u64 = count as u64;
    let m: u64 = c % 0x1_0000_0000;
    if m == 0xffff_ffff {
        0
    } else {
        (m + 1) as u32
    }
}

/// A description with the subtitle that shows it: its first line.
struct Description {
    text: String,
    subtitle: String,
}

impl Description {
    #[verifier::type_invariant]
    spec fn subtitle_is_first_line(self) -> bool {
        self.subtitle@ == first_line(self.text@)
    }

    fn new(text: String) -> (d: Description)
        ensures
            d.text@ == text@,
            d.subtitle@ == first_line(text@),
    {
        let subtitle = description_display(text.as_str());
        Description { text, subtitle }
    }

    fn lemma_consistent(&self)
        ensures
            self.subtitle@ == first_line(self.text@),
    {
        proof {
            use_type_invariant(self);
        }
    }
}

/// The page of one task.
pub struct TaskPage {
    task_id: i64,
    project: i64,
    date: i64,
    description: Description,
    date_shown: Option<i64>,
    reminders: Vec<i64>,
    subtasks: Vec<SubtaskSummary>,
    records: Vec<RecordSummary>,
    shows_subtasks: bool,
}

impl View for TaskPage {
    type V = TaskPageModel;

    closed spec fn view(&self) -> TaskPageModel {
        TaskPageModel {
            task_id: self.task_id,
            project: self.project,
            date: self.date,
            description: self.description.text@,
            subtitle: self.description.subtitle@,
            date_shown: self.date_shown,
            reminders: self.reminders@,
            subtasks: self.subtasks@,
            records: self.records@,
            shows_subtasks: self.shows_subtasks,
        }
    }
}

impl TaskPage {
    /// The page of `task`, listing `reminders`, `subtasks` and `records` in their order; the
    /// subtitle is the first line of the description, the date row shows the task's date
    /// when it has one, and the subtask list is the one shown.
    pub fn new(
        task: TaskInfo,
        reminders: Vec<i64>,
        subtasks: Vec<SubtaskSummary>,
        records: Vec<RecordSummary>,
    ) -> (page: TaskPage)
        ensures
            page@.task_id == task.id,
            page@.project == task.project,
            page@.date == task.date,
            page@.description == task.description@,
            page@.subtitle == first_line(task.description@),
            page@.date_shown == (if task.date != 0 { Some(task.date) } else { None::<i64> }),
            page@.reminders == reminders@,
            page@.subtasks == subtasks@,
            page@.records == records@,
            page@.shows_subtasks,
    {
        let date_shown = if task.date != 0 { Some(task.date) } else { None };
        TaskPage {
            task_id: task.id,
            project: task.project,
            date: task.date,
            description: Description::new(task.description),
            date_shown,
            reminders,
            subtasks,
            records,
            shows_subtasks: true,
        }
    }

    /// The task the page shows.
    pub fn task(&self) -> (task: TaskInfo)
        ensures
            task.id == self@.task_id,
            task.project == self@.project,
            task.date == self@.date,
            task.description@ == self@.description,
    {
        TaskInfo {
            id: self.task_id,
            project: self.project,
            date: self.date,
            description: self.description.text.clone(),
        }
    }

    /// The subtitle of the description row.
    pub fn subtitle(&self) -> (subtitle: String)
        ensures
            subtitle@ == self@.subtitle,
            subtitle@ == first_line(self@.description),
    {
        self.description.lemma_consistent();
        self.description.subtitle.clone()
    }

    /// The date the date row shows, if any.
    pub fn date_shown(&self) -> (date: Option<i64>)
        ensures
            date == self@.date_shown,
    {
        self.date_shown
    }

    /// Whether the subtask list is the one shown (else the record list is).
    pub fn shows_subtasks(&self) -> (shown: bool)
        ensures
            shown == self@.shows_subtasks,
    {
        self.shows_subtasks
    }

    /// The ids of the reminders listed.
    pub fn reminders(&self) -> (ids: Vec<i64>)
        ensures
            ids@ == self@.reminders,
    {
        self.reminders.clone()
    }

    /// The subtasks listed.
    pub fn subtasks(&self) -> (subtasks: Vec<SubtaskSummary>)
        ensures
            subtasks@ == self@.subtasks,
    {
        self.subtasks.clone()
    }

    /// The records listed.
    pub fn records(&self) -> (records: Vec<RecordSummary>)
        ensures
            records@ == self@.records,
    {
        self.records.clone()
    }

    /// Lists the record `record` at the end of the record list.
    pub fn add_record(&mut self, record: RecordSummary)
        ensures
            final(self)@ == (TaskPageModel { records: old(self)@.records.push(record), ..old(self)@ }),
    {
        self.records.push(record);
    }

    /// Lists the reminder `reminder_id` at the end of the reminder list.
    pub fn add_reminder(&mut self, reminder_id: i64)
        ensures
            final(self)@ == (TaskPageModel { reminders: old(self)@.reminders.push(reminder_id), ..old(self)@ }),
    {
        self.reminders.push(reminder_id);
    }
    /// Sets the task's date to `date` (a unix time), as picked on the date row.
    pub fn set_date(&mut self, date: i64)
        ensures
            final(self)@ == (TaskPageModel { date, date_shown: Some(date), ..old(self)@ }),
    {
        self.date = date;
        self.date_shown = Some(date);
    }

    /// Takes the edited description `text`: when it differs from the task's description it
    /// becomes the description and its first line the subtitle, and `true` tells that the
    /// task is to be saved; otherwise nothing changes.
    pub fn description_changed(&mut self, text: &str) -> (changed: bool)
        ensures
            changed == (text@ != old(self)@.description),
            final(self)@ == old(self)@.with_description(text@),
    {
        let t = String::from_str(text);
        if !(self.description.text == t) {
            self.description = Description::new(t);
            true
        } else {
            false
        }
    }

    /// Shows the list picked at `index` of the list menu: the subtasks (with the button
    /// that adds one) at index 0, the records at index 1.
    pub fn select_list(&mut self, index: i32)
        requires
            index == 0 || index == 1,
        ensures
            final(self)@ == (TaskPageModel { shows_subtasks: index == 0, ..old(self)@ }),
    {
        self.shows_subtasks = index == 0;
    }

    /// The reminder that the page proposes at the unix time `now` (in seconds): for the
    /// task, at `now`, not yet sent, of priority 2.
    pub fn new_reminder(&self, now: u64) -> (draft: ReminderDraft)
        ensures
            draft == (ReminderDraft { id: 0, datetime: now as i64, sent: false, task: self@.task_id, priority: 2 }),
    {
        ReminderDraft { id: 0, datetime: now as i64, sent: false, task: self.task_id, priority: 2 }
    }

    /// The record that the page proposes at the unix time `now` (in seconds): for the task,
    /// starting at `now`, of no duration yet.
    pub fn new_record(&self, now: u64) -> (draft: RecordDraft)
        ensures
            draft == (RecordDraft { id: 0, start: now as i64, duration: 0, task: self@.task_id }),
    {
        RecordDraft { id: 0, start: now as i64, duration: 0, task: self.task_id }
    }

    /// The subtask that the page creates: unnamed, in the task's project, in no section,
    /// under the task.
    pub fn new_subtask(&self) -> (draft: SubtaskDraft)
        ensures
            draft.name@ == Seq::<char>::empty(),
            draft.project == self@.project,
            draft.section == 0,
            draft.parent == self@.task_id,
    {
        SubtaskDraft { name: String::new(), project: self.project, section: 0, parent: self.task_id }
    }

    /// Lists the new subtask `subtask` at the top of the subtask list.
    pub fn add_subtask_top(&mut self, subtask: SubtaskSummary)
        ensures
            final(self)@ == (TaskPageModel { subtasks: seq![subtask] + old(self)@.subtasks, ..old(self)@ }),
    {
        self.subtasks.insert(0, subtask);
        proof {
            assert(self@.subtasks =~= seq![subtask] + old(self)@.subtasks);
        }
    }

    /// Lists the new subtask `subtask` at the bottom: it gets position 0 and every subtask
    /// already listed moves one position up, so the new one sorts last.
    pub fn add_subtask_bottom(&mut self, subtask: SubtaskSummary) -> (added: SubtaskSummary)
        requires
            positions_below_max(old(self)@.subtasks),
        ensures
            added == (SubtaskSummary { position: 0, ..subtask }),
            final(self)@ == old(self)@.with_subtask_at_bottom(subtask),
    {
        let n = self.subtasks.len();
        let mut i: usize = 0;
        while i < n
            invariant
                n == old(self)@.subtasks.len(),
                self.subtasks@.len() == n,
                i <= n,
                positions_below_max(old(self)@.subtasks),
                forall|j: int| 0 <= j < i ==> #[trigger] self.subtasks@[j] == (SubtaskSummary {
                    position: (old(self)@.subtasks[j].position + 1) as i32,
                    ..old(self)@.subtasks[j]
                }),
                forall|j: int| i <= j < n ==> #[trigger] self.subtasks@[j] == old(self)@.subtasks[j],
                self@ == (TaskPageModel { subtasks: self@.subtasks, ..old(self)@ }),
            decreases n - i,
        {
            let s = self.subtasks[i];
            self.subtasks.set(i, SubtaskSummary { position: s.position + 1, ..s });
            i = i + 1;
        }
        let added = SubtaskSummary { position: 0, ..subtask };
        self.subtasks.push(added);
        proof {
            assert(self@.subtasks =~= old(self)@.with_subtask_at_bottom(subtask).subtasks);
        }
        added
    }

    /// Catches the record list up with `fresh`, the task's records as saved: when the list's
    /// `row_count` is not the one `fresh` calls for, the record with the largest id (the
    /// last of them) is listed at the end and returned; otherwise nothing changes.
    pub fn refresh_records(&mut self, row_count: u32, fresh: &Vec<RecordSummary>) -> (appended: Option<RecordSummary>)
        requires
            row_count != expected_rows(fresh@.len()) ==> fresh@.len() > 0,
        ensures
            fresh@.len() < u32::MAX && row_count as int == fresh@.len() + 1 ==> appended is None,
            fresh@.len() < u32::MAX && row_count as int != fresh@.len() + 1 ==> appended is Some,
            row_count == expected_rows(fresh@.len()) ==> appended is None && final(self)@ == old(self)@,
            row_count != expected_rows(fresh@.len()) ==> exists|i: int| {
                &&& is_newest(fresh@, i)
                &&& appended == Some(#[trigger] fresh@[i])
                &&& final(self)@ == (TaskPageModel { records: old(self)@.records.push(fresh@[i]), ..old(self)@ })
            },
    {
        if row_count != expected_record_rows(fresh.len()) {
            let i = newest_record(fresh);
            let record = fresh[i];
            self.records.push(record);
            Some(record)
        } else {
            None
        }
    }
}


/// Taking the same edit of the description twice changes nothing the second time, and
/// every edit keeps the subtitle the first line of the description.
pub proof fn law_description_edit_is_idempotent(page: TaskPageModel, text: Seq<char>)
    requires
        page.consistent(),
    ensures
        page.with_description(text).consistent(),
        page.with_description(text).with_description(text) == page.with_description(text),
        page.with_description(text).description == text,
{
}

/// Swapping two subtasks with different positions swaps their order.
pub proof fn law_subtask_order_flips(a: i32, b: i32)
    requires
        a != b,
    ensures
        (subtask_order_spec(Some(a), Some(b)) == RowOrder::Larger) == (subtask_order_spec(
            Some(b),
            Some(a),
        ) == RowOrder::Smaller),
{
}

/// A subtask added at the bottom sorts after every other subtask, and the others keep their
/// order among themselves, when no position was negative.
pub proof fn law_bottom_subtask_sorts_last(page: TaskPageModel, subtask: SubtaskSummary)
    requires
        positions_below_max(page.subtasks),
        forall|i: int| 0 <= i < page.subtasks.len() ==> #[trigger] page.subtasks[i].position >= 0,
    ensures
        ({
            let after = page.with_subtask_at_bottom(subtask).subtasks;
            let n = page.subtasks.len() as int;
            &&& after.len() == n + 1
            &&& after[n] == (SubtaskSummary { position: 0, ..subtask })
            &&& forall|i: int|
                0 <= i < n ==> subtask_order_spec(Some(after[n].position), Some(#[trigger] after[i].position))
                    == RowOrder::Larger
            &&& forall|i: int, j: int|
                0 <= i < n && 0 <= j < n ==> subtask_order_spec(
                    Some(#[trigger] after[i].position),
                    Some(#[trigger] after[j].position),
                ) == subtask_order_spec(Some(page.subtasks[i].position), Some(page.subtasks[j].position))
        }),
{
    let after = page.with_subtask_at_bottom(subtask).subtasks;
    let n = page.subtasks.len() as int;
    assert forall|i: int| 0 <= i < n implies #[trigger] after[i].position == page.subtasks[i].position + 1 by {
        assert(page.subtasks[i].position < i32::MAX);
    }
}

/// A row that is not a subtask goes after whatever it is compared with, and a subtask goes
/// before such a row; between subtasks, the one with the smaller position goes after.
pub proof fn law_non_subtask_rows_go_last(second: Option<i32>, b: i32, a: i32)
    ensures
        subtask_order_spec(None, second) == RowOrder::Larger,
        subtask_order_spec(Some(b), None) == RowOrder::Smaller,
        (subtask_order_spec(Some(a), Some(b)) == RowOrder::Larger) == (a < b),
        subtask_order_spec(None, Some(b)) != subtask_order_spec(Some(b), None),
{
}

/// A record list of `count` records holds one row more than its records, as long as that
/// count fits in a `u32`.
pub proof fn law_expected_rows_is_one_more(count: nat)
    ensures
        count < u32::MAX ==> expected_rows(count) as int == count + 1,
{
}

} // verus!
