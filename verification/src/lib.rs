//! The decisions behind the calendar day view and the task page of a
//! planner: what a day shows and how its tracked time adds up, and how a
//! task page keeps its subtasks, records and description.
pub mod day_view;
pub mod task_page;
pub mod text;
