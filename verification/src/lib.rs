//! Personal task tracking: task lifecycle, priority ordering, date filters and
//! a single-day timeline laid out on a fixed-width character grid.
pub mod clock;
pub mod command;
pub mod manager;
pub mod task;
pub mod timeline;
