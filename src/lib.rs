//! A grade book: semesters, periods, courses, moments and tasks, navigated
//! and edited through a cursor, and rendered as rows of terminal text.
//!
//! `uni_info` holds the tree and every edit of it, `cursor` the position that
//! edits address, `print` and `progress` the rendered view and its totals,
//! `key` and `session` what the keys of an interactive session mean.

pub mod cursor;
pub mod grade;
pub mod key;
pub mod print;
pub mod progress;
mod seq_facts;
pub mod session;
pub mod tasks;
pub mod text;
pub mod uni_info;
