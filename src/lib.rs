//! Live status widgets for a terminal bar: command output parsing, refresh
//! scheduling and the layout of each widget's text.

pub mod schedule;
pub mod text;
pub mod widget;
pub mod layout;

