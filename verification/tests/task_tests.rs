use arenta::clock::{Date, Moment};
use arenta::command::{DateFilterOp, ListOption};
use arenta::task::{compare_date, get_duration, Color, Task, TaskStatus};
use chrono::naive::Days;
use chrono::offset::Local;
use chrono::{DateTime, Duration, NaiveDate};

fn moment(dt: DateTime<Local>) -> Moment {
    Moment::new(dt.timestamp(), dt.timestamp_subsec_nanos(), dt.offset().local_minus_utc())
}

fn date(day: NaiveDate) -> Date {
    Date::new(i64::from(day.to_epoch_days()))
}

fn now() -> Moment {
    moment(Local::now())
}

/// A moment on day 19000 after 1970-01-01, at the given wall-clock time, with no offset.
fn at(hour: i64, minute: i64) -> Moment {
    Moment::new(19_000 * 86_400 + hour * 3_600 + minute * 60, 0, 0)
}

fn task_template() -> Task {
    Task {
        description: "".to_string(),
        planned_start: None,
        planned_complete: None,
        actual_start: None,
        actual_complete: None,
        status: TaskStatus::Planned,
        is_deleted: false,
    }
}

#[test]
fn test_new_immediate_task() {
    let task = Task::new_immediate_task("immediate task");
    assert_eq!(task.description, "immediate task");
    assert!(task.planned_start.is_none());
    assert!(task.planned_complete.is_none());
    assert!(task.actual_start.is_some());
    assert!(task.actual_complete.is_none());
    assert_eq!(task.status, TaskStatus::Ongoing);
}

#[test]
fn test_new_planned_task() {
    let format = "%Y-%m-%d %H:%M:%S%z";
    let future_start = moment(
        DateTime::parse_from_str("2099-01-01 00:00:00+0000", format)
            .unwrap()
            .with_timezone(&Local),
    );
    let future_end = moment(
        DateTime::parse_from_str("2099-01-01 01:00:00+0000", format)
            .unwrap()
            .with_timezone(&Local),
    );
    let past_start = moment(
        DateTime::parse_from_str("1999-01-01 00:00:00+0000", format)
            .unwrap()
            .with_timezone(&Local),
    );
    let past_end = moment(
        DateTime::parse_from_str("1999-01-01 01:00:00+0000", format)
            .unwrap()
            .with_timezone(&Local),
    );

    let task = Task::new_planned_task("planned task future", future_start, future_end);
    assert_eq!(task.description, "planned task future");
    assert_eq!(task.planned_start.unwrap(), future_start);
    assert_eq!(task.planned_complete.unwrap(), future_end);
    assert!(task.actual_start.is_none());
    assert!(task.actual_complete.is_none());
    assert_eq!(task.status, TaskStatus::Planned);

    let task = Task::new_planned_task("planned task past", past_start, past_end);
    assert_eq!(task.description, "planned task past");
    assert_eq!(task.planned_start.unwrap(), past_start);
    assert_eq!(task.planned_complete.unwrap(), past_end);
    assert!(task.actual_start.is_none());
    assert!(task.actual_complete.is_none());
    assert_eq!(task.status, TaskStatus::Overdue);
}

fn line_text(task: &Task, now: &Moment) -> String {
    assert!(task.can_tell_time_at(now));
    let line = task.get_render_status_string(now);
    assert_eq!(line.color, task.color_of_status());
    format!("{}[{}]{}", line.lead, line.keyword, line.tail)
}

/// Checks that `text` is `lead`, a number of minutes about a day long, and `tail`.
fn assert_about_a_day(text: &str, lead: &str, tail: &str) {
    let minutes = text
        .strip_prefix(lead)
        .and_then(|rest| rest.strip_suffix(tail))
        .and_then(|digits| digits.parse::<i64>().ok());
    assert!(matches!(minutes, Some(1379..=1500)));
}

#[test]
fn test_render_simple() {
    let task = Task {
        description: "planned but no schedule".to_string(),
        status: TaskStatus::Backlog,
        ..task_template()
    };
    assert_eq!(line_text(&task, &now()), "in [backlog]");

    let task = Task {
        description: "planned but no schedule".to_string(),
        planned_start: Local::now().checked_add_days(Days::new(1)).map(moment),
        ..task_template()
    };
    assert_about_a_day(&line_text(&task, &now()), "[planned] to start in ", " minutes");

    let task = Task {
        description: "overdue".to_string(),
        planned_start: Local::now().checked_sub_days(Days::new(1)).map(moment),
        status: TaskStatus::Overdue,
        ..task_template()
    };
    assert_about_a_day(&line_text(&task, &now()), "", " minutes [overdue]");

    let task = Task {
        description: "ongoing".to_string(),
        actual_start: Local::now().checked_sub_days(Days::new(1)).map(moment),
        status: TaskStatus::Ongoing,
        ..task_template()
    };
    assert_about_a_day(&line_text(&task, &now()), "[ongoing] for ", " minutes");

    let task = Task {
        description: "complete".to_string(),
        actual_complete: Local::now().checked_sub_days(Days::new(1)).map(moment),
        status: TaskStatus::Complete,
        ..task_template()
    };
    assert_about_a_day(&line_text(&task, &now()), "[complete] ", " minutes ago");
}

#[test]
fn test_compare_date() {
    let dt = Some(moment(
        DateTime::parse_from_str("2023-01-26 09:00:00+0800", "%F %H:%M:%S%z")
            .unwrap()
            .with_timezone(&Local),
    ));
    let yesterday = date(NaiveDate::parse_from_str("2023-01-25", "%F").unwrap());
    let today = date(NaiveDate::parse_from_str("2023-01-26", "%F").unwrap());
    let tomorrow = date(NaiveDate::parse_from_str("2023-01-27", "%F").unwrap());
    assert!(!compare_date(&dt, DateFilterOp::Earlier, &today));
    assert!(compare_date(&dt, DateFilterOp::Earlier, &tomorrow));
    assert!(compare_date(&dt, DateFilterOp::EarlierEqual, &today));
    assert!(compare_date(&dt, DateFilterOp::EarlierEqual, &tomorrow));
    assert!(compare_date(&dt, DateFilterOp::Equal, &today));
    assert!(!compare_date(&dt, DateFilterOp::Equal, &tomorrow));
    assert!(compare_date(&dt, DateFilterOp::Later, &yesterday));
    assert!(!compare_date(&dt, DateFilterOp::Later, &today));
    assert!(compare_date(&dt, DateFilterOp::LaterEqual, &yesterday));
    assert!(compare_date(&dt, DateFilterOp::LaterEqual, &today));
}

fn overdue_task(gap: i64) -> Task {
    Task {
        status: TaskStatus::Overdue,
        planned_start: Some(moment(Local::now() + Duration::minutes(gap))),
        ..task_template()
    }
}

fn ongoing_task(gap: i64) -> Task {
    Task {
        status: TaskStatus::Ongoing,
        actual_start: Some(moment(Local::now() + Duration::minutes(gap))),
        ..task_template()
    }
}

fn planned_task(gap: i64) -> Task {
    Task {
        status: TaskStatus::Planned,
        planned_start: Some(moment(Local::now() + Duration::minutes(gap))),
        ..task_template()
    }
}

fn done_task(gap: i64) -> Task {
    Task {
        status: TaskStatus::Complete,
        actual_complete: Some(moment(Local::now() + Duration::minutes(gap))),
        ..task_template()
    }
}

fn backlog_task() -> Task {
    Task { status: TaskStatus::Backlog, ..task_template() }
}

#[test]
fn test_has_higher_priority_than() {
    assert!(overdue_task(-2).has_higher_priority_than(&overdue_task(-1)));
    assert!(ongoing_task(-1).has_higher_priority_than(&ongoing_task(-2)));
    assert!(planned_task(1).has_higher_priority_than(&planned_task(2)));
    assert!(done_task(-1).has_higher_priority_than(&done_task(-2)));
    assert!(overdue_task(-2).has_higher_priority_than(&ongoing_task(-1)));
    assert!(ongoing_task(-1).has_higher_priority_than(&planned_task(2)));
    assert!(planned_task(1).has_higher_priority_than(&done_task(-2)));
    assert!(done_task(-1).has_higher_priority_than(&backlog_task()));
}

#[test]
fn moment_matches_chrono_calendar() {
    let dt = Local::now();
    let m = moment(dt);
    assert_eq!(m.date_naive(), date(dt.date_naive()));
    let earlier = moment(dt - Duration::minutes(90));
    assert!(earlier.is_before(&m));
    assert!(!m.is_before(&earlier));
    assert!(!m.is_before(&m));
    assert_eq!(get_duration(&earlier, &m), 90);
}

#[test]
fn local_day_rounds_down_before_the_epoch() {
    assert_eq!(Moment::new(-1, 0, 0).date_naive(), Date::new(-1));
    assert_eq!(Moment::new(-1, 0, 0).num_seconds_from_midnight(), 86_399);
    assert_eq!(Moment::new(0, 0, -3_600).date_naive(), Date::new(-1));
    assert_eq!(Moment::new(86_399, 0, 1).date_naive(), Date::new(1));
    assert_eq!(Moment::new(86_400 * 3 + 5, 0, 0).num_seconds_from_midnight(), 5);
}

#[test]
fn minutes_round_down() {
    let start = Moment::new(100, 500_000_000, 0);
    assert_eq!(start.num_minutes_until(&Moment::new(160, 499_999_999, 0)), 0);
    assert_eq!(start.num_minutes_until(&Moment::new(160, 500_000_000, 0)), 1);
    assert_eq!(start.num_minutes_until(&Moment::new(100 + 600, 600_000_000, 7_200)), 10);
}

#[test]
fn update_status_follows_rule_order() {
    let now = at(12, 0);
    let mut task = Task {
        planned_start: Some(at(9, 0)),
        planned_complete: Some(at(9, 30)),
        actual_start: Some(at(9, 5)),
        actual_complete: Some(at(9, 40)),
        ..task_template()
    };
    task.update_status_at(now);
    assert_eq!(task.status, TaskStatus::Complete);
    task.actual_complete = None;
    task.update_status_at(now);
    assert_eq!(task.status, TaskStatus::Ongoing);
    task.actual_start = None;
    task.update_status_at(now);
    assert_eq!(task.status, TaskStatus::Overdue);
    task.update_status_at(at(8, 0));
    assert_eq!(task.status, TaskStatus::Planned);
    task.update_status_at(at(9, 0));
    assert_eq!(task.status, TaskStatus::Planned);
    task.planned_start = None;
    task.planned_complete = None;
    task.update_status_at(now);
    assert_eq!(task.status, TaskStatus::Backlog);
}

#[test]
fn update_status_is_idempotent() {
    let now = at(9, 15);
    let mut task = Task {
        planned_start: Some(at(9, 0)),
        planned_complete: Some(at(9, 30)),
        status: TaskStatus::Backlog,
        ..task_template()
    };
    task.update_status_at(now);
    let first = task.status;
    task.update_status_at(now);
    assert_eq!(first, TaskStatus::Overdue);
    assert_eq!(task.status, first);
}

#[test]
fn past_completion_wins_over_due_plan() {
    let mut task = Task {
        planned_start: Some(at(9, 0)),
        planned_complete: Some(at(9, 30)),
        actual_complete: Some(at(10, 0)),
        ..task_template()
    };
    task.update_status_at(at(10, 1));
    assert_eq!(task.status, TaskStatus::Complete);
    task.update_status_at(at(10, 0));
    assert_eq!(task.status, TaskStatus::Overdue);
}

#[test]
fn future_actual_start_leaves_the_backlog_status() {
    let mut task = Task { actual_start: Some(at(13, 0)), ..task_template() };
    task.update_status_at(at(12, 0));
    assert_eq!(task.status, TaskStatus::Backlog);
}

#[test]
fn start_and_complete_set_time_and_status() {
    let mut task = Task::new_backlog_task("write");
    assert_eq!(task.status, TaskStatus::Backlog);
    task.start_at(at(9, 0));
    assert_eq!(task.actual_start, Some(at(9, 0)));
    assert_eq!(task.status, TaskStatus::Ongoing);
    task.complete_at(at(10, 0));
    assert_eq!(task.actual_complete, Some(at(10, 0)));
    assert_eq!(task.status, TaskStatus::Complete);
    assert_eq!(task.description, "write");
    assert!(!task.is_deleted);
    task.delete();
    assert!(task.is_deleted);
    let mut other = Task::new_backlog_task("clock");
    other.start();
    assert!(other.actual_start.is_some());
    other.complete();
    assert!(other.actual_complete.is_some());
    assert!(!other.actual_complete.unwrap().is_before(&other.actual_start.unwrap()));
    other.update_status();
    assert!(other.status == TaskStatus::Complete || other.status == TaskStatus::Ongoing);
}

#[test]
fn planned_task_at_a_given_instant() {
    let task = Task::new_planned_task_at("p", at(9, 0), at(9, 30), at(9, 0));
    assert_eq!(task.status, TaskStatus::Planned);
    let task = Task::new_planned_task_at("p", at(9, 0), at(9, 30), at(9, 1));
    assert_eq!(task.status, TaskStatus::Overdue);
    let task = Task::new_immediate_task_at("i", at(9, 1));
    assert_eq!(task.actual_start, Some(at(9, 1)));
}

#[test]
fn overdue_outranks_every_other_phase() {
    let overdue = Task { status: TaskStatus::Overdue, planned_start: Some(at(9, 0)), ..task_template() };
    let others = vec![
        Task { status: TaskStatus::Ongoing, actual_start: Some(at(8, 0)), ..task_template() },
        Task { status: TaskStatus::Planned, planned_start: Some(at(8, 0)), ..task_template() },
        Task { status: TaskStatus::Complete, actual_complete: Some(at(8, 0)), ..task_template() },
        Task { status: TaskStatus::Backlog, ..task_template() },
    ];
    for other in &others {
        assert!(overdue.is_comparable_with(other));
        assert!(overdue.has_higher_priority_than(other));
        assert!(!other.has_higher_priority_than(&overdue));
    }
}

#[test]
fn earlier_overdue_ranks_higher() {
    let first = Task { status: TaskStatus::Overdue, planned_start: Some(at(9, 0)), ..task_template() };
    let second = Task { status: TaskStatus::Overdue, planned_start: Some(at(9, 1)), ..task_template() };
    assert!(first.has_higher_priority_than(&second));
    assert!(!second.has_higher_priority_than(&first));
    assert!(!first.has_higher_priority_than(&first));
}

#[test]
fn unset_planned_start_loses_among_planned() {
    let set = Task { status: TaskStatus::Planned, planned_start: Some(at(9, 0)), ..task_template() };
    let unset = Task { status: TaskStatus::Planned, ..task_template() };
    assert!(set.has_higher_priority_than(&unset));
    assert!(!unset.has_higher_priority_than(&set));
    assert!(!unset.has_higher_priority_than(&unset));
    let backlog = Task { status: TaskStatus::Backlog, ..task_template() };
    assert!(!backlog.has_higher_priority_than(&backlog));
    assert!(!backlog.has_higher_priority_than(&unset));
}

#[test]
fn missing_tie_break_is_not_comparable() {
    let bare = Task { status: TaskStatus::Overdue, ..task_template() };
    let full = Task { status: TaskStatus::Overdue, planned_start: Some(at(9, 0)), ..task_template() };
    assert!(!bare.is_comparable_with(&full));
    assert!(!full.is_comparable_with(&bare));
    assert!(full.is_comparable_with(&full));
    let ongoing = Task { status: TaskStatus::Ongoing, ..task_template() };
    assert!(bare.is_comparable_with(&ongoing));
    assert!(!ongoing.is_comparable_with(&ongoing));
}

fn option(op: DateFilterOp, day: i64, include_backlog: bool) -> ListOption {
    ListOption {
        date_filter: (op, Date::new(day)),
        include_backlog,
        is_verbose: false,
        has_timeline: false,
    }
}

#[test]
fn backlog_passes_only_when_included() {
    let mut task = Task { status: TaskStatus::Backlog, actual_start: Some(at(9, 0)), ..task_template() };
    for op in [
        DateFilterOp::Earlier,
        DateFilterOp::EarlierEqual,
        DateFilterOp::Equal,
        DateFilterOp::Later,
        DateFilterOp::LaterEqual,
    ] {
        for day in [18_999, 19_000, 19_001] {
            assert!(!task.satisfy(&option(op, day, false)));
            assert!(task.satisfy(&option(op, day, true)));
        }
    }
    task.status = TaskStatus::Ongoing;
    assert!(task.satisfy(&option(DateFilterOp::Equal, 19_000, false)));
    assert!(!task.satisfy(&option(DateFilterOp::Equal, 19_001, true)));
}

#[test]
fn no_timestamps_pass_no_date_filter() {
    for status in [TaskStatus::Planned, TaskStatus::Overdue, TaskStatus::Ongoing, TaskStatus::Complete] {
        let task = Task { status, ..task_template() };
        for op in [
            DateFilterOp::Earlier,
            DateFilterOp::EarlierEqual,
            DateFilterOp::Equal,
            DateFilterOp::Later,
            DateFilterOp::LaterEqual,
        ] {
            assert!(!task.satisfy(&option(op, 19_000, true)));
            assert!(!task.satisfy(&option(op, 19_000, false)));
        }
    }
}

#[test]
fn any_of_the_four_timestamps_can_match() {
    let day_before = Moment::new(18_999 * 86_400 + 10, 0, 0);
    let filter = option(DateFilterOp::Earlier, 19_000, false);
    assert!(Task { planned_start: Some(day_before), ..task_template() }.satisfy(&filter));
    assert!(Task { planned_complete: Some(day_before), ..task_template() }.satisfy(&filter));
    assert!(Task { actual_start: Some(day_before), ..task_template() }.satisfy(&filter));
    assert!(Task { actual_complete: Some(day_before), ..task_template() }.satisfy(&filter));
    assert!(!Task { actual_complete: Some(at(0, 0)), ..task_template() }.satisfy(&filter));
    assert!(!compare_date(&None, DateFilterOp::Earlier, &Date::new(19_000)));
}

#[test]
fn status_colors_are_fixed() {
    let color = |status: TaskStatus| Task { status, ..task_template() }.color_of_status();
    assert_eq!(color(TaskStatus::Backlog), Color::TrueColor { r: 128, g: 128, b: 128 });
    assert_eq!(color(TaskStatus::Planned), Color::TrueColor { r: 51, g: 255, b: 255 });
    assert_eq!(color(TaskStatus::Overdue), Color::TrueColor { r: 255, g: 102, b: 102 });
    assert_eq!(color(TaskStatus::Ongoing), Color::TrueColor { r: 255, g: 255, b: 102 });
    assert_eq!(color(TaskStatus::Complete), Color::TrueColor { r: 51, g: 255, b: 51 });
}

#[test]
fn status_lines_count_whole_minutes() {
    let now = at(9, 15);
    let planned = Task { status: TaskStatus::Planned, planned_start: Some(at(9, 45)), ..task_template() };
    assert_eq!(line_text(&planned, &now), "[planned] to start in 30 minutes");
    let overdue = Task { status: TaskStatus::Overdue, planned_start: Some(at(9, 0)), ..task_template() };
    assert_eq!(line_text(&overdue, &now), "15 minutes [overdue]");
    let ongoing = Task { status: TaskStatus::Ongoing, actual_start: Some(at(7, 15)), ..task_template() };
    assert_eq!(line_text(&ongoing, &now), "[ongoing] for 120 minutes");
    let done = Task {
        status: TaskStatus::Complete,
        actual_complete: Some(Moment::new(at(9, 15).utc_seconds - 59, 0, 0)),
        ..task_template()
    };
    assert_eq!(line_text(&done, &now), "[complete] 0 minutes ago");
    assert!(!planned.can_tell_time_at(&at(9, 45)));
    assert!(!overdue.can_tell_time_at(&at(9, 0)));
    assert!(!Task { status: TaskStatus::Ongoing, ..task_template() }.can_tell_time_at(&now));
}

#[test]
fn status_padding_aligns_columns() {
    let padding = |status: TaskStatus| Task { status, ..task_template() }.get_render_status_padding();
    assert_eq!(padding(TaskStatus::Backlog), "  ");
    assert_eq!(padding(TaskStatus::Overdue), "  ");
    assert_eq!(padding(TaskStatus::Ongoing), "  ");
    assert_eq!(padding(TaskStatus::Planned), " ");
    assert_eq!(padding(TaskStatus::Complete), "");
}

#[test]
fn the_clock_is_read_when_a_task_starts() {
    let before = now();
    let task = Task::new_immediate_task("clocked");
    let after = now();
    let started = task.actual_start.unwrap();
    assert!(!started.is_before(&before));
    assert!(!after.is_before(&started));
    assert_eq!(started.date_naive(), date(Local::now().date_naive()));
    assert_eq!(started.offset_seconds, before.offset_seconds);
}
