//! One day of the calendar: its title, the tasks planned on it, the time they
//! take together, and what happens when one of its tasks is edited.
use vstd::prelude::*;

use crate::text::{remove_spaces, spaces_removed};

verus! {

/// What the day reads of a task: its id, the start of the day it is planned on
/// (a unix time, `0` for no date) and the time it takes, in seconds.
#[derive(Clone, Copy, Debug, PartialEq, Eq, Structural)]
pub struct TaskSummary {
    pub id: i64,
    pub date: i64,
    pub duration: i64,
}

/// The sum of the durations of `rows`.
pub open spec fn total_duration(rows: Seq<TaskSummary>) -> int
    decreases rows.len(),
{
    if rows.len() == 0 {
        0
    } else {
        total_duration(rows.drop_last()) + rows.last().duration
    }
}

/// Adding up the durations of `rows` from the first on never leaves the range of `i64`.
pub open spec fn running_totals_fit(rows: Seq<TaskSummary>) -> bool {
    forall|k: int|
        0 <= k <= rows.len() ==> i64::MIN <= #[trigger] total_duration(rows.take(k)) <= i64::MAX
}

/// `v` lies in the range of `i64`.
pub open spec fn fits_i64(v: int) -> bool {
    i64::MIN <= v <= i64::MAX
}

/// What became of a day after the page of one of its tasks was closed.
#[derive(Clone, Copy, Debug, PartialEq, Eq, Structural)]
pub enum ClosedOutcome {
    /// The task was moved to another date: its row left the day and its time no longer counts.
    MovedOut,
    /// The row now shows the edited task, which stays on this day.
    RowReset,
    /// The closed page was of another task, which has a date: the calendar is told about it.
    OutsideChanged,
    /// The closed page was of another task without a date: nothing to do.
    Unrelated,
}

/// The state of a day as the specifications see it.
pub struct DayModel {
    /// The start of the day, a unix time.
    pub datetime: i64,
    /// The title of the day.
    pub name: Seq<char>,
    /// The time the listed tasks take, as the day counts it.
    pub duration: i64,
    /// The listed tasks, in the order they were added.
    pub rows: Seq<TaskSummary>,
    /// Whether the title is shown dimmed.
    pub dimmed: bool,
}

impl DayModel {
    /// The day after `row` was added at the end of its list.
    pub open spec fn with_row_added(self, row: TaskSummary) -> DayModel {
        DayModel {
            rows: self.rows.push(row),
            duration: (self.duration + row.duration) as i64,
            dimmed: false,
            ..self
        }
    }

    /// The day after the row at `index` was taken out (if there is one); the title is
    /// dimmed once no row is left.
    pub open spec fn with_row_removed(self, index: int) -> DayModel {
        let rows = if 0 <= index < self.rows.len() {
            self.rows.remove(index)
        } else {
            self.rows
        };
        DayModel { rows, dimmed: if rows.len() == 0 { true } else { self.dimmed }, ..self }
    }

    /// How the day answers the closing of the page that was opened from the row at
    /// `index`, where `task` is the task as the page left it.
    pub open spec fn close_outcome(self, index: int, task: TaskSummary) -> ClosedOutcome {
        if task.id == self.rows[index].id {
            if task.date != self.datetime {
                ClosedOutcome::MovedOut
            } else {
                ClosedOutcome::RowReset
            }
        } else if task.date != 0 {
            ClosedOutcome::OutsideChanged
        } else {
            ClosedOutcome::Unrelated
        }
    }

    /// The day after the closing of the page opened from the row at `index`: a row of
    /// the same task shows `task`; when `task` left the day its time is taken off and
    /// its row is removed.
    pub open spec fn after_close(self, index: int, task: TaskSummary) -> DayModel {
        if task.id == self.rows[index].id {
            let reset = DayModel { rows: self.rows.update(index, task), ..self };
            if task.date != self.datetime {
                DayModel {
                    duration: (self.duration - task.duration) as i64,
                    ..reset
                }.with_row_removed(index)
            } else {
                reset
            }
        } else {
            self
        }
    }

    /// The title is dimmed exactly when the day lists no task.
    pub open spec fn consistent(self) -> bool {
        self.dimmed == (self.rows.len() == 0)
    }
}

/// The date pattern of a day's title: day of the month, month, and the weekday, or the
/// word for today when the day is today.
pub open spec fn title_pattern_spec(is_today: bool, today_word: Seq<char>) -> Seq<char> {
    if is_today {
        "%e %b, "@ + today_word
    } else {
        "%e %b, %A"@
    }
}

/// Builds the date pattern of a day's title from the word for today.
pub fn title_pattern(is_today: bool, today_word: &str) -> (pattern: String)
    ensures
        pattern@ == title_pattern_spec(is_today, today_word@),
        is_today ==> pattern@ == "%e %b, "@ + today_word@,
        !is_today ==> pattern@ == "%e %b, %A"@,
{
    if is_today {
        let mut pattern = String::from_str("%e %b, ");
        pattern.append(today_word);
        pattern
    } else {
        String::from_str("%e %b, %A")
    }
}

/// The date pattern of the title of the day whose (year, month, day) is `date_ymd`, when
/// today is `now_ymd` and `today_word` is the word for "Today" in the user's language: on
/// another day it names the weekday; today it ends with `today_word`.
pub fn day_title_pattern(date_ymd: (i32, i32, i32), now_ymd: (i32, i32, i32), today_word: &str) -> (pattern: String)
    ensures
        pattern@ == title_pattern_spec(date_ymd == now_ymd, today_word@),
        date_ymd == now_ymd ==> pattern@ == "%e %b, "@ + today_word@,
        date_ymd != now_ymd ==> pattern@ == "%e %b, %A"@,
{
    let is_today = date_ymd.0 == now_ymd.0 && date_ymd.1 == now_ymd.1 && date_ymd.2 == now_ymd.2;
    title_pattern(is_today, today_word)
}

/// Whether the duration label of a day is shown: a day whose tasks take no time hides it.
pub fn duration_label_shown(duration: i64) -> (shown: bool)
    ensures
        shown == (duration != 0),
{
    duration != 0
}

/// The text of the duration label of a day: empty when its tasks take no time, else
/// `display`, the duration as the user reads it.
pub open spec fn duration_label_text_spec(duration: i64, display: Seq<char>) -> Seq<char> {
    if duration == 0 {
        Seq::<char>::empty()
    } else {
        display
    }
}

/// The text of the duration label of a day whose tasks take `duration`, where `display` is
/// that duration written for the user: cleared for no time, else `display`.
pub fn duration_label_text(duration: i64, display: &str) -> (text: String)
    ensures
        text@ == duration_label_text_spec(duration, display@),
        duration != 0 ==> text@ == display@,
        duration == 0 ==> text@.len() == 0,
{
    if duration == 0 {
        String::new()
    } else {
        String::from_str(display)
    }
}

/// One day of the calendar.
pub struct DayView {
    datetime: i64,
    name: String,
    duration: i64,
    rows: Vec<TaskSummary>,
    dimmed: bool,
}

impl View for DayView {
    type V = DayModel;

    closed spec fn view(&self) -> DayModel {
        DayModel {
            datetime: self.datetime,
            name: self.name@,
            duration: self.duration,
            rows: self.rows@,
            dimmed: self.dimmed,
        }
    }
}

proof fn lemma_take_last(rows: Seq<TaskSummary>, i: int)
    requires
        0 <= i < rows.len(),
    ensures
        rows.take(i + 1).drop_last() == rows.take(i),
        rows.take(i + 1).last() == rows[i],
{
    assert(rows.take(i + 1).drop_last() =~= rows.take(i));
}

impl DayView {
    #[verifier::type_invariant]
    spec fn dimmed_when_empty(self) -> bool {
        self.dimmed == (self.rows@.len() == 0)
    }

    /// A day that starts at `datetime`, titled by `formatted_name` without its spaces, listing
    /// `tasks` in their order; its duration is the sum of theirs, and an empty day is dimmed.
    pub fn new(datetime: i64, formatted_name: &str, tasks: Vec<TaskSummary>) -> (day: DayView)
        requires
            running_totals_fit(tasks@),
        ensures
            day@.datetime == datetime,
            day@.name == spaces_removed(formatted_name@),
            day@.duration == total_duration(tasks@),
            day@.rows == tasks@,
            day@.dimmed == (tasks@.len() == 0),
            day@.consistent(),
    {
        let name = remove_spaces(formatted_name);
        let mut duration: i64 = 0;
        let n = tasks.len();
        let mut i: usize = 0;
        while i < n
            invariant
                n == tasks@.len(),
                i <= n,
                running_totals_fit(tasks@),
                duration == total_duration(tasks@.take(i as int)),
            decreases n - i,
        {
            proof {
                lemma_take_last(tasks@, i as int);
                assert(fits_i64(total_duration(tasks@.take(i + 1))));
            }
            duration = duration + tasks[i].duration;
            i = i + 1;
        }
        proof {
            assert(tasks@.take(n as int) =~= tasks@);
        }
        let dimmed = n == 0;
        DayView { datetime, name, duration, rows: tasks, dimmed }
    }

    /// An empty day, used while a day is being rebuilt.
    fn placeholder() -> (day: DayView)
        ensures
            day@.rows.len() == 0,
    {
        DayView { datetime: 0, name: String::new(), duration: 0, rows: Vec::new(), dimmed: true }
    }

    /// Moves the day out of `self`, leaving an empty day behind.
    fn take_out(&mut self) -> (day: DayView)
        ensures
            day@ == old(self)@,
            day@.consistent(),
    {
        let mut day = DayView::placeholder();
        std::mem::swap(&mut day, self);
        proof {
            use_type_invariant(&day);
        }
        day
    }

    /// Adds `row` at the end of the day, undims the title and adds the row's time to the
    /// day's duration.
    pub fn add_row(&mut self, row: TaskSummary)
        requires
            fits_i64(old(self)@.duration + row.duration),
        ensures
            final(self)@ == old(self)@.with_row_added(row),
            final(self)@.consistent(),
    {
        let DayView { datetime, name, duration, mut rows, dimmed: _ } = self.take_out();
        rows.push(row);
        *self = DayView { datetime, name, duration: duration + row.duration, rows, dimmed: false };
    }

    /// Takes the row at `index` out of the day (nothing when there is none) and dims the
    /// title once no row is left.
    pub fn remove_row(&mut self, index: usize)
        ensures
            final(self)@ == old(self)@.with_row_removed(index as int),
            final(self)@.consistent(),
    {
        let DayView { datetime, name, duration, mut rows, dimmed } = self.take_out();
        if index < rows.len() {
            rows.remove(index);
        }
        let dimmed = if rows.len() == 0 { true } else { dimmed };
        *self = DayView { datetime, name, duration, rows, dimmed };
    }

    /// Answers the closing of the page that was opened from the row at `index`, `task` being
    /// the task as the page left it: the row of that task is reset to it, and moved out of
    /// the day, its time taken off, when its date is no longer this day.
    pub fn task_page_closed(&mut self, index: usize, task: TaskSummary) -> (outcome: ClosedOutcome)
        requires
            index < old(self)@.rows.len(),
            task.id == old(self)@.rows[index as int].id && task.date != old(self)@.datetime
                ==> fits_i64(old(self)@.duration - task.duration),
        ensures
            outcome == old(self)@.close_outcome(index as int, task),
            final(self)@ == old(self)@.after_close(index as int, task),
            final(self)@.consistent(),
            task.id != old(self)@.rows[index as int].id ==> final(self)@ == old(self)@,
            task.id != old(self)@.rows[index as int].id && task.date != 0
                ==> outcome == ClosedOutcome::OutsideChanged,
            task.id != old(self)@.rows[index as int].id && task.date == 0
                ==> outcome == ClosedOutcome::Unrelated,
            task.id == old(self)@.rows[index as int].id && task.date != old(self)@.datetime ==> {
                &&& outcome == ClosedOutcome::MovedOut
                &&& final(self)@.duration == old(self)@.duration - task.duration
                &&& final(self)@.rows == old(self)@.rows.remove(index as int)
            },
            task.id == old(self)@.rows[index as int].id && task.date == old(self)@.datetime ==> {
                &&& outcome == ClosedOutcome::RowReset
                &&& final(self)@.duration == old(self)@.duration
                &&& final(self)@.rows == old(self)@.rows.update(index as int, task)
            },
    {
        proof {
            assert(old(self)@.rows.update(index as int, task).remove(index as int)
                =~= old(self)@.rows.remove(index as int));
        }
        proof {
            use_type_invariant(&*self);
        }
        if task.id == self.rows[index].id {
            let DayView { datetime, name, duration, mut rows, dimmed } = self.take_out();
            rows.set(index, task);
            if task.date != datetime {
                *self = DayView { datetime, name, duration: duration - task.duration, rows, dimmed };
                self.remove_row(index);
                ClosedOutcome::MovedOut
            } else {
                *self = DayView { datetime, name, duration, rows, dimmed };
                proof {
                    use_type_invariant(&*self);
                }
                ClosedOutcome::RowReset
            }
        } else if task.date != 0 {
            ClosedOutcome::OutsideChanged
        } else {
            ClosedOutcome::Unrelated
        }
    }
    /// The start of the day, a unix time.
    pub fn datetime(&self) -> (t: i64)
        ensures
            t == self@.datetime,
    {
        self.datetime
    }

    /// The time the listed tasks take, as the day counts it.
    pub fn duration(&self) -> (d: i64)
        ensures
            d == self@.duration,
    {
        self.duration
    }

    /// The title of the day.
    pub fn name(&self) -> (name: String)
        ensures
            name@ == self@.name,
    {
        self.name.clone()
    }

    /// How many tasks the day lists.
    pub fn row_count(&self) -> (n: usize)
        ensures
            n == self@.rows.len(),
    {
        self.rows.len()
    }

    /// The task listed at `index`.
    pub fn row(&self, index: usize) -> (task: TaskSummary)
        requires
            index < self@.rows.len(),
        ensures
            task == self@.rows[index as int],
    {
        self.rows[index]
    }

    /// Whether the title is dimmed, which it is exactly when the day lists no task.
    pub fn is_dimmed(&self) -> (dimmed: bool)
        ensures
            dimmed == self@.dimmed,
            dimmed == (self@.rows.len() == 0),
    {
        proof {
            use_type_invariant(self);
        }
        self.dimmed
    }
}


/// Taking the row at `index` out of `rows` takes its duration off their sum.
proof fn lemma_total_after_remove(rows: Seq<TaskSummary>, index: int)
    requires
        0 <= index < rows.len(),
    ensures
        total_duration(rows.remove(index)) == total_duration(rows) - rows[index].duration,
    decreases rows.len(),
{
    if index == rows.len() - 1 {
        assert(rows.remove(index) =~= rows.drop_last());
    } else {
        let d = rows.drop_last();
        lemma_total_after_remove(d, index);
        assert(rows.remove(index).drop_last() =~= d.remove(index));
        assert(rows.remove(index).last() == rows.last());
    }
}

/// Adding a row to a day whose duration is the sum of its rows' keeps it so.
pub proof fn law_adding_a_row_keeps_the_total(day: DayModel, row: TaskSummary)
    requires
        day.duration == total_duration(day.rows),
        fits_i64(day.duration + row.duration),
    ensures
        day.with_row_added(row).duration == total_duration(day.with_row_added(row).rows),
{
    assert(day.rows.push(row).drop_last() =~= day.rows);
}

/// Moving a task out of a day whose duration is the sum of its rows' keeps it so, when the
/// task still takes the time its row counted.
pub proof fn law_moving_out_keeps_the_total(day: DayModel, index: int, task: TaskSummary)
    requires
        day.duration == total_duration(day.rows),
        0 <= index < day.rows.len(),
        task.id == day.rows[index].id,
        task.duration == day.rows[index].duration,
        task.date != day.datetime,
        fits_i64(day.duration - task.duration),
    ensures
        day.close_outcome(index, task) == ClosedOutcome::MovedOut,
        day.after_close(index, task).duration == total_duration(day.after_close(index, task).rows),
        day.after_close(index, task).rows.len() == day.rows.len() - 1,
{
    lemma_total_after_remove(day.rows, index);
    lemma_total_after_remove(day.rows.update(index, task), index);
    assert(day.rows.update(index, task).remove(index) =~= day.rows.remove(index));
}

/// A task that was added to a day and then moved to another date leaves the day as it was
/// before: same rows, same duration, same title.
pub proof fn law_moving_out_an_added_row_restores_the_day(
    day: DayModel,
    row: TaskSummary,
    task: TaskSummary,
)
    requires
        day.consistent(),
        fits_i64(day.duration + row.duration),
        task.id == row.id,
        task.duration == row.duration,
        task.date != day.datetime,
    ensures
        day.with_row_added(row).close_outcome(day.rows.len() as int, task) == ClosedOutcome::MovedOut,
        day.with_row_added(row).after_close(day.rows.len() as int, task) == day,
{
    let added = day.with_row_added(row);
    let n = day.rows.len() as int;
    assert(added.rows[n] == row);
    assert(added.rows.update(n, task).remove(n) =~= day.rows);
}

/// Editing a task that stays on the day, or any other task, leaves the day's duration and
/// list length as they were.
pub proof fn law_other_closings_keep_the_duration(day: DayModel, index: int, task: TaskSummary)
    requires
        0 <= index < day.rows.len(),
        day.close_outcome(index, task) != ClosedOutcome::MovedOut,
    ensures
        day.after_close(index, task).duration == day.duration,
        day.after_close(index, task).rows.len() == day.rows.len(),
        day.after_close(index, task).dimmed == day.dimmed,
{
}

/// A page closed for a task that is not the row's tells the calendar exactly when that task
/// has a date, whatever the day, and leaves the day untouched.
pub proof fn law_other_task_is_told_when_dated(day: DayModel, index: int, task: TaskSummary)
    requires
        0 <= index < day.rows.len(),
        task.id != day.rows[index].id,
    ensures
        (day.close_outcome(index, task) == ClosedOutcome::OutsideChanged) == (task.date != 0),
        (day.close_outcome(index, task) == ClosedOutcome::Unrelated) == (task.date == 0),
        day.after_close(index, task) == day,
{
}

/// A page closed for the row's own task resets the row when the task stays on the day, and
/// moves it out, taking its time off, when the task's date is another one.
pub proof fn law_own_task_resets_or_moves_out(day: DayModel, index: int, task: TaskSummary)
    requires
        0 <= index < day.rows.len(),
        task.id == day.rows[index].id,
        task.date != day.datetime ==> fits_i64(day.duration - task.duration),
    ensures
        (day.close_outcome(index, task) == ClosedOutcome::MovedOut) == (task.date != day.datetime),
        (day.close_outcome(index, task) == ClosedOutcome::RowReset) == (task.date == day.datetime),
        task.date != day.datetime ==> day.after_close(index, task).duration == day.duration - task.duration
            && day.after_close(index, task).rows == day.rows.remove(index),
        task.date == day.datetime ==> day.after_close(index, task).duration == day.duration
            && day.after_close(index, task).rows[index] == task
            && day.after_close(index, task).rows.len() == day.rows.len(),
{
    assert(day.rows.update(index, task).remove(index) =~= day.rows.remove(index));
}

/// Today's title pattern is "%e %b, " followed by the whole word for today, which ends it;
/// any other day's pattern names the weekday and does not depend on the word.
pub proof fn law_title_pattern_ends_with_the_word(word: Seq<char>, other: Seq<char>)
    ensures
        title_pattern_spec(true, word).len() == 7 + word.len(),
        title_pattern_spec(true, word).skip(7) == word,
        title_pattern_spec(true, word).take(7) == title_pattern_spec(true, other).take(7),
        title_pattern_spec(false, word) == title_pattern_spec(false, other),
        title_pattern_spec(false, word) == "%e %b, %A"@,
{
    reveal_strlit("%e %b, ");
    assert(title_pattern_spec(true, word).skip(7) =~= word);
    assert(title_pattern_spec(true, word).take(7) =~= "%e %b, "@);
    assert(title_pattern_spec(true, other).take(7) =~= "%e %b, "@);
}

/// The duration label shows the whole written duration for any time other than none, and is
/// empty exactly for no time when the written duration is not empty.
pub proof fn law_duration_label_text(duration: i64, display: Seq<char>)
    ensures
        duration != 0 ==> duration_label_text_spec(duration, display) == display,
        duration == 0 ==> duration_label_text_spec(duration, display).len() == 0,
        display.len() > 0 ==> ((duration_label_text_spec(duration, display).len() == 0) == (duration == 0)),
{
}

} // verus!
