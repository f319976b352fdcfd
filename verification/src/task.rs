//! Task records: lifecycle, status derivation, filtering and priority.
use vstd::prelude::*;
use vstd::string::*;
use crate::clock::{now, Date, Moment};
use crate::command::{DateFilterOp, ListOption};

verus! {

/// The phase a task is in.
#[derive(Debug, PartialEq, Eq, Structural, Copy, Clone)]
pub enum TaskStatus {
    Backlog,
    Planned,
    Overdue,
    Ongoing,
    Complete,
}

/// A display colour: either the terminal's plain red or an exact RGB triple.
#[derive(Debug, PartialEq, Eq, Structural, Copy, Clone)]
pub enum Color {
    Red,
    TrueColor { r: u8, g: u8, b: u8 },
}

/// A task: what it is, when it was planned, when it was worked on, and the
/// phase last derived from that.
#[derive(Debug)]
pub struct Task {
    pub description: String,
    pub planned_start: Option<Moment>,
    pub planned_complete: Option<Moment>,
    pub actual_start: Option<Moment>,
    pub actual_complete: Option<Moment>,
    pub status: TaskStatus,
    pub is_deleted: bool,
}

/// Whether `t` is set and lies strictly before `now`.
pub open spec fn is_past(t: Option<Moment>, now: Moment) -> bool {
    t is Some && t->0.before(now)
}

/// The phase implied by three of the timestamps at instant `now`. The rules
/// are tried top down, so a recorded completion in the past wins over a
/// start, and a start over a plan.
pub open spec fn phase_at(
    planned_start: Option<Moment>,
    actual_start: Option<Moment>,
    actual_complete: Option<Moment>,
    now: Moment,
) -> TaskStatus {
    if is_past(actual_complete, now) {
        TaskStatus::Complete
    } else if is_past(actual_start, now) {
        TaskStatus::Ongoing
    } else if is_past(planned_start, now) {
        TaskStatus::Overdue
    } else if planned_start is Some {
        TaskStatus::Planned
    } else {
        TaskStatus::Backlog
    }
}

/// Whether timestamp `t` is set and its local calendar day stands in relation
/// `op` to `date`.
pub open spec fn date_matches(t: Option<Moment>, op: DateFilterOp, date: Date) -> bool {
    t is Some && op.holds(t->0.local_day(), date.days as int)
}

/// Whether a start at `a` is sooner than one at `b`, an unset start counting
/// as later than every set one and never sooner than anything.
pub open spec fn starts_sooner(a: Option<Moment>, b: Option<Moment>) -> bool {
    a is Some && (b is None || a->0.before(b->0))
}

/// The colour that stands for a phase.
pub open spec fn status_color(status: TaskStatus) -> Color {
    match status {
        TaskStatus::Backlog => Color::TrueColor { r: 128, g: 128, b: 128 },
        TaskStatus::Planned => Color::TrueColor { r: 51, g: 255, b: 255 },
        TaskStatus::Overdue => Color::TrueColor { r: 255, g: 102, b: 102 },
        TaskStatus::Ongoing => Color::TrueColor { r: 255, g: 255, b: 102 },
        TaskStatus::Complete => Color::TrueColor { r: 51, g: 255, b: 51 },
    }
}

/// Position of a phase in the priority list, 0 for the most urgent.
pub open spec fn phase_rank(status: TaskStatus) -> int {
    match status {
        TaskStatus::Overdue => 0,
        TaskStatus::Ongoing => 1,
        TaskStatus::Planned => 2,
        TaskStatus::Complete => 3,
        TaskStatus::Backlog => 4,
    }
}

pub fn compare_date(self_dt: &Option<Moment>, op: DateFilterOp, date: &Date) -> (b: bool)
    ensures
        b == date_matches(*self_dt, op, *date),
{
    match self_dt {
        Some(dt) => {
            let day: i64 = dt.date_naive().days;
            match op {
                DateFilterOp::Earlier => day < date.days,
                DateFilterOp::EarlierEqual => day <= date.days,
                DateFilterOp::Equal => day == date.days,
                DateFilterOp::Later => day > date.days,
                DateFilterOp::LaterEqual => day >= date.days,
            }
        },
        None => false,
    }
}

/// Whether `t` is set and strictly before `now`.
pub fn is_past_at(t: &Option<Moment>, now: &Moment) -> (b: bool)
    ensures
        b == is_past(*t, *now),
{
    match t {
        Some(dt) => dt.is_before(now),
        None => false,
    }
}

impl Task {
    /// The planned pair is set together and in order, and a recorded
    /// completion does not precede a recorded start.
    pub open spec fn well_formed(self) -> bool {
        &&& (self.planned_start is Some <==> self.planned_complete is Some)
        &&& (self.planned_start is Some && self.planned_complete is Some
            ==> !self.planned_complete->0.before(self.planned_start->0))
        &&& (self.actual_start is Some && self.actual_complete is Some
            ==> !self.actual_complete->0.before(self.actual_start->0))
    }

    /// The phase the task is in at instant `now`, whatever its cached
    /// status says.
    pub open spec fn derived_status(self, now: Moment) -> TaskStatus {
        phase_at(self.planned_start, self.actual_start, self.actual_complete, now)
    }

    /// The task with its status recomputed for instant `now`.
    pub open spec fn refreshed(self, now: Moment) -> Task {
        Task { status: self.derived_status(now), ..self }
    }

    /// The task as it is once work on it began at `now`.
    pub open spec fn started(self, now: Moment) -> Task {
        Task { actual_start: Some(now), status: TaskStatus::Ongoing, ..self }
    }

    /// The task as it is once it was finished at `now`.
    pub open spec fn completed(self, now: Moment) -> Task {
        Task { actual_complete: Some(now), status: TaskStatus::Complete, ..self }
    }

    /// Whether the task passes the filter `option`, going by its cached
    /// status: a backlog task passes exactly when the backlog is included;
    /// any other passes when one of its set timestamps matches the date
    /// filter.
    pub open spec fn satisfies(self, option: ListOption) -> bool {
        if self.status == TaskStatus::Backlog {
            option.include_backlog
        } else {
            let (op, date) = option.date_filter;
            date_matches(self.planned_start, op, date) || date_matches(
                self.planned_complete,
                op,
                date,
            ) || date_matches(self.actual_start, op, date) || date_matches(
                self.actual_complete,
                op,
                date,
            )
        }
    }

    /// Whether the timestamp that breaks ties within the phases of the two
    /// tasks is there to be read: two overdue tasks both need a planned
    /// start, two ongoing ones an actual start, two complete ones an actual
    /// completion.
    pub open spec fn comparable_with(self, other: Task) -> bool {
        &&& (self.status == TaskStatus::Overdue && other.status == TaskStatus::Overdue ==> 
            self.planned_start is Some && other.planned_start is Some)
        &&& (self.status == TaskStatus::Ongoing && other.status == TaskStatus::Ongoing ==> 
            self.actual_start is Some && other.actual_start is Some)
        &&& (self.status == TaskStatus::Complete && other.status == TaskStatus::Complete ==> 
            self.actual_complete is Some && other.actual_complete is Some)
    }

    /// Whether the task is listed above `other`. Phases rank
    /// Overdue, Ongoing, Planned, Complete, Backlog; within a phase the
    /// earlier planned start wins among overdue and planned tasks, the later
    /// actual start among ongoing ones, the later completion among complete
    /// ones, and nothing ranks two backlog tasks.
    pub open spec fn ranks_above(self, other: Task) -> bool {
        match self.status {
            TaskStatus::Overdue => other.status != TaskStatus::Overdue
                || self.planned_start->0.before(other.planned_start->0),
            TaskStatus::Ongoing => if other.status == TaskStatus::Ongoing {
                other.actual_start->0.before(self.actual_start->0)
            } else {
                other.status != TaskStatus::Overdue
            },
            TaskStatus::Planned => if other.status == TaskStatus::Planned {
                starts_sooner(self.planned_start, other.planned_start)
            } else {
                other.status == TaskStatus::Complete || other.status == TaskStatus::Backlog
            },
            TaskStatus::Complete => if other.status == TaskStatus::Complete {
                other.actual_complete->0.before(self.actual_complete->0)
            } else {
                other.status == TaskStatus::Backlog
            },
            TaskStatus::Backlog => false,
        }
    }

    /// A task begun at `now`, with nothing planned.
    pub fn new_immediate_task_at(description: &str, now: Moment) -> (task: Task)
        ensures
            task.description@ == description@,
            task.planned_start is None,
            task.planned_complete is None,
            task.actual_start == Some(now),
            task.actual_complete is None,
            task.status == TaskStatus::Ongoing,
            !task.is_deleted,
            task.well_formed(),
    {
        Task {
            description: String::from_str(description),
            planned_start: None,
            planned_complete: None,
            actual_start: Some(now),
            actual_complete: None,
            status: TaskStatus::Ongoing,
            is_deleted: false,
        }
    }

    /// A task begun at the system clock's reading, with nothing planned.
    pub fn new_immediate_task(description: &str) -> (task: Task)
        ensures
            task.description@ == description@,
            task.planned_start is None,
            task.planned_complete is None,
            task.actual_start is Some,
            task.actual_complete is None,
            task.status == TaskStatus::Ongoing,
            !task.is_deleted,
            task.well_formed(),
    {
        Task::new_immediate_task_at(description, now())
    }

    /// A task planned from `start` to `end`, seen at `now`: overdue when its
    /// start has passed, planned otherwise.
    pub fn new_planned_task_at(description: &str, start: Moment, end: Moment, now: Moment) -> (task:
        Task)
        requires
            !end.before(start),
        ensures
            task.description@ == description@,
            task.planned_start == Some(start),
            task.planned_complete == Some(end),
            task.actual_start is None,
            task.actual_complete is None,
            task.status == (if start.before(now) {
                TaskStatus::Overdue
            } else {
                TaskStatus::Planned
            }),
            task.status == task.derived_status(now),
            !task.is_deleted,
            task.well_formed(),
    {
        Task {
            description: String::from_str(description),
            planned_start: Some(start),
            planned_complete: Some(end),
            actual_start: None,
            actual_complete: None,
            status: if start.is_before(&now) {
                TaskStatus::Overdue
            } else {
                TaskStatus::Planned
            },
            is_deleted: false,
        }
    }

    /// A task planned from `start` to `end`, its status taken against the
    /// system clock.
    pub fn new_planned_task(description: &str, start: Moment, end: Moment) -> (task: Task)
        requires
            !end.before(start),
        ensures
            task.description@ == description@,
            task.planned_start == Some(start),
            task.planned_complete == Some(end),
            task.actual_start is None,
            task.actual_complete is None,
            exists|now: Moment| task.status == task.derived_status(now),
            task.status == TaskStatus::Overdue || task.status == TaskStatus::Planned,
            !task.is_deleted,
            task.well_formed(),
    {
        Task::new_planned_task_at(description, start, end, now())
    }

    /// A task with no schedule at all.
    pub fn new_backlog_task(description: &str) -> (task: Task)
        ensures
            task.description@ == description@,
            task.planned_start is None,
            task.planned_complete is None,
            task.actual_start is None,
            task.actual_complete is None,
            task.status == TaskStatus::Backlog,
            !task.is_deleted,
            task.well_formed(),
    {
        Task {
            description: String::from_str(description),
            planned_start: None,
            planned_complete: None,
            actual_start: None,
            actual_complete: None,
            status: TaskStatus::Backlog,
            is_deleted: false,
        }
    }

    /// Records that work began at `now`.
    pub fn start_at(&mut self, now: Moment)
        ensures
            *final(self) == old(self).started(now),
    {
        self.actual_start = Some(now);
        self.status = TaskStatus::Ongoing;
    }

    /// Records that work began at the system clock's reading.
    pub fn start(&mut self)
        ensures
            exists|now: Moment| *final(self) == old(self).started(now),
    {
        self.start_at(now());
    }

    /// Records that the task was finished at `now`.
    pub fn complete_at(&mut self, now: Moment)
        ensures
            *final(self) == old(self).completed(now),
    {
        self.actual_complete = Some(now);
        self.status = TaskStatus::Complete;
    }

    /// Records that the task was finished at the system clock's reading.
    pub fn complete(&mut self)
        ensures
            exists|now: Moment| *final(self) == old(self).completed(now),
    {
        self.complete_at(now());
    }

    /// Marks the task as deleted; it stays in place as a placeholder.
    pub fn delete(&mut self)
        ensures
            *final(self) == (Task { is_deleted: true, ..*old(self) }),
    {
        self.is_deleted = true;
    }

    /// Recomputes the cached status for instant `now`.
    pub fn update_status_at(&mut self, now: Moment)
        ensures
            *final(self) == old(self).refreshed(now),
    {
        self.status = if is_past_at(&self.actual_complete, &now) {
            TaskStatus::Complete
        } else if is_past_at(&self.actual_start, &now) {
            TaskStatus::Ongoing
        } else if is_past_at(&self.planned_start, &now) {
            TaskStatus::Overdue
        } else if self.planned_start.is_some() {
            TaskStatus::Planned
        } else {
            TaskStatus::Backlog
        };
    }

    /// Recomputes the cached status for the system clock's reading.
    pub fn update_status(&mut self)
        ensures
            exists|now: Moment| *final(self) == old(self).refreshed(now),
    {
        self.update_status_at(now());
    }

    pub fn satisfy(&self, option: &ListOption) -> (b: bool)
        ensures
            b == self.satisfies(*option),
    {
        match self.status {
            TaskStatus::Backlog => option.include_backlog,
            _ => {
                let op: DateFilterOp = option.date_filter.0;
                let date: &Date = &option.date_filter.1;
                compare_date(&self.planned_start, op, date) || compare_date(
                    &self.planned_complete,
                    op,
                    date,
                ) || compare_date(&self.actual_start, op, date) || compare_date(
                    &self.actual_complete,
                    op,
                    date,
                )
            },
        }
    }

    /// Whether `has_higher_priority_than` can compare the two tasks.
    pub fn is_comparable_with(&self, task: &Task) -> (b: bool)
        ensures
            b == self.comparable_with(*task),
    {
        match (self.status, task.status) {
            (TaskStatus::Overdue, TaskStatus::Overdue) => self.planned_start.is_some()
                && task.planned_start.is_some(),
            (TaskStatus::Ongoing, TaskStatus::Ongoing) => self.actual_start.is_some()
                && task.actual_start.is_some(),
            (TaskStatus::Complete, TaskStatus::Complete) => self.actual_complete.is_some()
                && task.actual_complete.is_some(),
            _ => true,
        }
    }

    pub fn has_higher_priority_than(&self, task: &Task) -> (b: bool)
        requires
            self.comparable_with(*task),
        ensures
            b == self.ranks_above(*task),
    {
        match self.status {
            TaskStatus::Overdue => {
                if task.status == TaskStatus::Overdue {
                    self.planned_start.unwrap().is_before(&task.planned_start.unwrap())
                } else {
                    true
                }
            },
            TaskStatus::Ongoing => {
                if task.status == TaskStatus::Ongoing {
                    task.actual_start.unwrap().is_before(&self.actual_start.unwrap())
                } else {
                    task.status != TaskStatus::Overdue
                }
            },
            TaskStatus::Planned => {
                if task.status == TaskStatus::Planned {
                    match (self.planned_start, task.planned_start) {
                        (Some(mine), Some(theirs)) => mine.is_before(&theirs),
                        (Some(_), None) => true,
                        (None, _) => false,
                    }
                } else {
                    task.status == TaskStatus::Complete || task.status == TaskStatus::Backlog
                }
            },
            TaskStatus::Complete => {
                if task.status == TaskStatus::Complete {
                    task.actual_complete.unwrap().is_before(&self.actual_complete.unwrap())
                } else {
                    task.status == TaskStatus::Backlog
                }
            },
            TaskStatus::Backlog => false,
        }
    }

    pub fn color_of_status(&self) -> (color: Color)
        ensures
            color == status_color(self.status),
    {
        match self.status {
            TaskStatus::Backlog => Color::TrueColor { r: 128, g: 128, b: 128 },
            TaskStatus::Planned => Color::TrueColor { r: 51, g: 255, b: 255 },
            TaskStatus::Overdue => Color::TrueColor { r: 255, g: 102, b: 102 },
            TaskStatus::Ongoing => Color::TrueColor { r: 255, g: 255, b: 102 },
            TaskStatus::Complete => Color::TrueColor { r: 51, g: 255, b: 51 },
        }
    }
}

/// The character of a decimal digit.
pub open spec fn digit_char(d: nat) -> char {
    (48 + d) as char
}

/// A number written in decimal digits, without sign or leading zeros.
pub open spec fn decimal(n: nat) -> Seq<char>
    decreases n,
{
    if n < 10 {
        seq![digit_char(n)]
    } else {
        decimal(n / 10).push(digit_char(n % 10))
    }
}

/// `u64::to_string`: the number in decimal digits.
#[verifier::external_body]
pub(crate) fn decimal_text(n: u64) -> (text: String)
    ensures
        text@ == decimal(n as nat),
{
    n.to_string()
}

/// A status in words: what stands before the coloured keyword, the keyword
/// with its colour, and what stands behind it.
#[derive(Debug)]
pub struct StatusLine {
    pub lead: String,
    pub keyword: String,
    pub tail: String,
    pub color: Color,
}

/// The same, as plain text.
pub struct StatusText {
    pub lead: Seq<char>,
    pub keyword: Seq<char>,
    pub tail: Seq<char>,
    pub color: Color,
}

impl StatusLine {
    pub open spec fn view(&self) -> StatusText {
        StatusText {
            lead: self.lead@,
            keyword: self.keyword@,
            tail: self.tail@,
            color: self.color,
        }
    }
}

/// What is put behind a status line of the given phase to align the columns
/// of a detailed listing.
pub open spec fn status_padding(status: TaskStatus) -> Seq<char> {
    match status {
        TaskStatus::Backlog | TaskStatus::Overdue | TaskStatus::Ongoing => "  "@,
        TaskStatus::Planned => " "@,
        TaskStatus::Complete => ""@,
    }
}

impl Task {
    /// Whether the timestamp that the status line counts minutes from is
    /// set and on the right side of `now`: ahead of it for a planned task,
    /// behind it for an overdue, ongoing or complete one.
    pub open spec fn tells_time_at(self, now: Moment) -> bool {
        match self.status {
            TaskStatus::Backlog => true,
            TaskStatus::Planned => self.planned_start is Some && now.before(self.planned_start->0),
            TaskStatus::Overdue => is_past(self.planned_start, now),
            TaskStatus::Ongoing => is_past(self.actual_start, now),
            TaskStatus::Complete => is_past(self.actual_complete, now),
        }
    }

    /// The status of the task in words at instant `now`, minutes rounded
    /// down.
    pub open spec fn status_line(self, now: Moment) -> StatusText {
        let color = status_color(self.status);
        match self.status {
            TaskStatus::Backlog => StatusText { lead: "in "@, keyword: "backlog"@, tail: ""@, color },
            TaskStatus::Planned => StatusText {
                lead: ""@,
                keyword: "planned"@,
                tail: " to start in "@ + decimal(now.minutes_until(self.planned_start->0) as nat)
                    + " minutes"@,
                color,
            },
            TaskStatus::Overdue => StatusText {
                lead: decimal(self.planned_start->0.minutes_until(now) as nat) + " minutes "@,
                keyword: "overdue"@,
                tail: ""@,
                color,
            },
            TaskStatus::Ongoing => StatusText {
                lead: ""@,
                keyword: "ongoing"@,
                tail: " for "@ + decimal(self.actual_start->0.minutes_until(now) as nat)
                    + " minutes"@,
                color,
            },
            TaskStatus::Complete => StatusText {
                lead: ""@,
                keyword: "complete"@,
                tail: " "@ + decimal(self.actual_complete->0.minutes_until(now) as nat)
                    + " minutes ago"@,
                color,
            },
        }
    }

    /// Whether `get_render_status_string` can tell the time for the task at
    /// `now`.
    pub fn can_tell_time_at(&self, now: &Moment) -> (b: bool)
        ensures
            b == self.tells_time_at(*now),
    {
        match self.status {
            TaskStatus::Backlog => true,
            TaskStatus::Planned => match self.planned_start {
                Some(start) => now.is_before(&start),
                None => false,
            },
            TaskStatus::Overdue => is_past_at(&self.planned_start, now),
            TaskStatus::Ongoing => is_past_at(&self.actual_start, now),
            TaskStatus::Complete => is_past_at(&self.actual_complete, now),
        }
    }

    pub fn get_render_status_string(&self, now: &Moment) -> (line: StatusLine)
        requires
            self.tells_time_at(*now),
        ensures
            line@ == self.status_line(*now),
    {
        let color: Color = self.color_of_status();
        match self.status {
            TaskStatus::Backlog => StatusLine {
                lead: String::from_str("in "),
                keyword: String::from_str("backlog"),
                tail: String::from_str(""),
                color,
            },
            TaskStatus::Planned => {
                let gap: i64 = get_duration(now, &self.planned_start.unwrap());
                let mut tail = String::from_str(" to start in ");
                tail.append(decimal_text(gap as u64).as_str());
                tail.append(" minutes");
                StatusLine {
                    lead: String::from_str(""),
                    keyword: String::from_str("planned"),
                    tail,
                    color,
                }
            },
            TaskStatus::Overdue => {
                let gap: i64 = get_duration(&self.planned_start.unwrap(), now);
                let mut lead = decimal_text(gap as u64);
                lead.append(" minutes ");
                StatusLine {
                    lead,
                    keyword: String::from_str("overdue"),
                    tail: String::from_str(""),
                    color,
                }
            },
            TaskStatus::Ongoing => {
                let gap: i64 = get_duration(&self.actual_start.unwrap(), now);
                let mut tail = String::from_str(" for ");
                tail.append(decimal_text(gap as u64).as_str());
                tail.append(" minutes");
                StatusLine {
                    lead: String::from_str(""),
                    keyword: String::from_str("ongoing"),
                    tail,
                    color,
                }
            },
            TaskStatus::Complete => {
                let gap: i64 = get_duration(&self.actual_complete.unwrap(), now);
                let mut tail = String::from_str(" ");
                tail.append(decimal_text(gap as u64).as_str());
                tail.append(" minutes ago");
                StatusLine {
                    lead: String::from_str(""),
                    keyword: String::from_str("complete"),
                    tail,
                    color,
                }
            },
        }
    }

    pub fn get_render_status_padding(&self) -> (padding: String)
        ensures
            padding@ == status_padding(self.status),
    {
        match self.status {
            TaskStatus::Backlog | TaskStatus::Overdue | TaskStatus::Ongoing => String::from_str(
                "  ",
            ),
            TaskStatus::Planned => String::from_str(" "),
            TaskStatus::Complete => String::from_str(""),
        }
    }
}

/// Whole minutes from `t0` to the later `t1`.
pub fn get_duration(t0: &Moment, t1: &Moment) -> (minutes: i64)
    requires
        t0.before(*t1),
    ensures
        minutes == t0.minutes_until(*t1),
        minutes >= 0,
{
    t0.num_minutes_until(t1)
}

/// Refreshing the status twice against the same instant gives what
/// refreshing it once gives.
pub proof fn refresh_is_idempotent(task: Task, now: Moment)
    ensures
        task.refreshed(now).refreshed(now) == task.refreshed(now),
        task.refreshed(now).derived_status(now) == task.refreshed(now).status,
{
}

/// A completion recorded before `now` makes the task complete, whatever its
/// other timestamps and its cached status say.
pub proof fn past_completion_means_complete(task: Task, now: Moment)
    requires
        task.actual_complete is Some,
        task.actual_complete->0.before(now),
    ensures
        task.derived_status(now) == TaskStatus::Complete,
        task.refreshed(now).status == TaskStatus::Complete,
{
}

/// A status derived from the timestamps is always backed by the timestamp
/// that breaks ties in its phase, so refreshed tasks can be compared.
pub proof fn refreshed_tasks_are_comparable(a: Task, b: Task, now: Moment)
    ensures
        a.refreshed(now).comparable_with(b.refreshed(now)),
{
}

/// An overdue task ranks above every task in another phase, and none of
/// those ranks above it.
pub proof fn overdue_outranks_other_phases(overdue: Task, other: Task)
    requires
        overdue.status == TaskStatus::Overdue,
        other.status != TaskStatus::Overdue,
    ensures
        overdue.ranks_above(other),
        !other.ranks_above(overdue),
{
}

/// The phases rank in the order Overdue, Ongoing, Planned, Complete,
/// Backlog: a task in an earlier phase of that list ranks above one in a
/// later phase.
pub proof fn phases_rank_in_order(a: Task, b: Task)
    requires
        phase_rank(a.status) < phase_rank(b.status),
    ensures
        a.ranks_above(b),
        !b.ranks_above(a),
{
}

/// Of two overdue tasks the one planned to start earlier ranks higher.
pub proof fn earlier_overdue_ranks_higher(a: Task, b: Task, t1: Moment, t2: Moment)
    requires
        a.status == TaskStatus::Overdue,
        b.status == TaskStatus::Overdue,
        a.planned_start == Some(t1),
        b.planned_start == Some(t2),
        t1.before(t2),
    ensures
        a.ranks_above(b),
        !b.ranks_above(a),
{
}

/// No two tasks rank above each other.
pub proof fn ranking_is_asymmetric(a: Task, b: Task)
    requires
        a.ranks_above(b),
    ensures
        !b.ranks_above(a),
{
}

/// Ranking carries over: what ranks above a task ranks above all that the
/// task ranks above.
pub proof fn ranking_is_transitive(a: Task, b: Task, c: Task)
    requires
        a.ranks_above(b),
        b.ranks_above(c),
    ensures
        a.ranks_above(c),
{
}

/// Of three tasks, where the first ranks above the third, the second is
/// below the first or above the third: tasks that do not rank above one
/// another stand on one level.
pub proof fn ranking_has_levels(a: Task, b: Task, c: Task)
    requires
        a.ranks_above(c),
    ensures
        a.ranks_above(b) || b.ranks_above(c),
{
}

/// A backlog task passes a filter exactly when the filter includes the
/// backlog, so it passes none that leaves the backlog out.
pub proof fn backlog_needs_inclusion(task: Task, option: ListOption)
    requires
        task.status == TaskStatus::Backlog,
        !option.include_backlog,
    ensures
        !task.satisfies(option),
{
}

/// A task outside the backlog with no timestamp set passes no filter.
pub proof fn no_timestamps_match_no_date(task: Task, option: ListOption)
    requires
        task.status != TaskStatus::Backlog,
        task.planned_start is None,
        task.planned_complete is None,
        task.actual_start is None,
        task.actual_complete is None,
    ensures
        !task.satisfies(option),
{
}

} // verus!
