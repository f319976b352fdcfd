//! The task collection and the operations that commands perform on it.
use vstd::prelude::*;
use vstd::seq_lib::*;
use crate::clock::{now, Moment};
use crate::command::{Command, DateFilterOp, ListOption};
use vstd::string::*;
use crate::task::{
    ranking_has_levels, ranking_is_asymmetric, refreshed_tasks_are_comparable, Task, TaskStatus,
};

verus! {

/// Whether `n` is a Unicode scalar value, that is, the number of some `char`.
pub open spec fn is_scalar_value(n: int) -> bool {
    0 <= n < 0xD800 || 0xE000 <= n <= 0x10FFFF
}

/// The letter that marks the task at position `index` of a listing: `a` for
/// the first, `b` for the second, and so on through the code points.
pub open spec fn index_letter(index: int) -> char {
    (97 + index) as char
}

/// `char::from_u32`: the character numbered `n` when `n` is a Unicode scalar
/// value, nothing otherwise.
#[verifier::external_body]
fn char_from_u32(n: u32) -> (c: Option<char>)
    ensures
        is_scalar_value(n as int) ==> c == Some(n as char),
        !is_scalar_value(n as int) ==> c is None,
{
    char::from_u32(n)
}

pub fn timeline_index_to_char(index: usize) -> (c: char)
    requires
        is_scalar_value(97 + index),
    ensures
        c == index_letter(index as int),
{
    char_from_u32(97u32 + index as u32).unwrap()
}

/// Most tasks a timeline can show: one per letter.
pub const TIMELINE_CAPACITY: usize = 26;

/// The ordered collection of tasks.
pub struct Manager {
    tasks: Vec<Task>,
}

/// Why a command on a numbered task was not carried out.
#[derive(Debug, PartialEq, Eq, Structural, Copy, Clone)]
pub enum CommandError {
    /// There is no task with that number.
    IndexOutOfRange,
}

/// What is left to do once a command has been applied to the collection.
#[derive(Debug, PartialEq, Eq)]
pub enum Outcome {
    /// Nothing.
    Idle,
    /// Leave the program.
    Quit,
    /// Show how commands are written.
    Usage,
    /// Ask what the new task is, then add it with `new_task`.
    AskNew,
    /// Ask what to change in the task of that number, then change it with
    /// `edit_task_at`.
    AskEdit(usize),
    /// Save, and say that the tasks were sorted.
    Sorted,
    /// Save, and say that the task of that number was started.
    Started(usize),
    /// Save, and say that the task of that number was completed.
    Completed(usize),
    /// Save, and say that the task of that number was deleted.
    Deleted(usize),
    /// Say that there is no task of the number given.
    IndexOutOfRange,
    /// Show the tasks of these numbers.
    Listed(Vec<usize>),
    /// Draw the timeline of the tasks of these numbers, then show them.
    Charted(Vec<usize>),
}

/// What to do with one timestamp of a task.
#[derive(Debug, Copy, Clone)]
pub enum MomentEdit {
    Ignore,
    Reset,
    Update(Moment),
}

/// What to do with the planned start and completion of a task, which are
/// set and cleared together.
#[derive(Debug, Copy, Clone)]
pub enum PlanEdit {
    Ignore,
    Reset,
    Update(Moment, Moment),
}

/// The changes one edit makes to a task. An empty description keeps the
/// old one.
#[derive(Debug)]
pub struct TaskEdit {
    pub description: String,
    pub planned: PlanEdit,
    pub actual_start: MomentEdit,
    pub actual_complete: MomentEdit,
}

impl MomentEdit {
    /// The timestamp after the edit, given the one before.
    pub open spec fn applied(self, current: Option<Moment>) -> Option<Moment> {
        match self {
            MomentEdit::Ignore => current,
            MomentEdit::Reset => None,
            MomentEdit::Update(t) => Some(t),
        }
    }

    pub fn apply(&self, current: Option<Moment>) -> (result: Option<Moment>)
        ensures
            result == self.applied(current),
    {
        match self {
            MomentEdit::Ignore => current,
            MomentEdit::Reset => None,
            MomentEdit::Update(t) => Some(*t),
        }
    }
}

impl PlanEdit {
    /// The planned start after the edit, given the one before.
    pub open spec fn applied_start(self, current: Option<Moment>) -> Option<Moment> {
        match self {
            PlanEdit::Ignore => current,
            PlanEdit::Reset => None,
            PlanEdit::Update(start, _) => Some(start),
        }
    }

    /// The planned completion after the edit, given the one before.
    pub open spec fn applied_complete(self, current: Option<Moment>) -> Option<Moment> {
        match self {
            PlanEdit::Ignore => current,
            PlanEdit::Reset => None,
            PlanEdit::Update(_, complete) => Some(complete),
        }
    }
}

/// `task` after `edit`, with its status recomputed for instant `now`.
pub open spec fn edited(task: Task, edit: TaskEdit, now: Moment) -> Task {
    (Task {
        description: if edit.description@.len() == 0 {
            task.description
        } else {
            edit.description
        },
        planned_start: edit.planned.applied_start(task.planned_start),
        planned_complete: edit.planned.applied_complete(task.planned_complete),
        actual_start: edit.actual_start.applied(task.actual_start),
        actual_complete: edit.actual_complete.applied(task.actual_complete),
        ..task
    }).refreshed(now)
}

/// Why a stored record is not a task.
#[derive(Debug, PartialEq, Eq, Structural, Copy, Clone)]
pub enum RecordError {
    /// Only one of planned start and planned completion is set.
    PlanUnpaired,
    /// The planned completion precedes the planned start.
    PlanOutOfOrder,
    /// The actual completion precedes the actual start.
    ActualOutOfOrder,
}

/// What is wrong with the four timestamps of a stored record, if anything;
/// of several faults the first in the order of `RecordError` is named.
pub open spec fn record_fault(
    planned_start: Option<Moment>,
    planned_complete: Option<Moment>,
    actual_start: Option<Moment>,
    actual_complete: Option<Moment>,
) -> Option<RecordError> {
    if (planned_start is Some) != (planned_complete is Some) {
        Some(RecordError::PlanUnpaired)
    } else if planned_start is Some && planned_complete->0.before(planned_start->0) {
        Some(RecordError::PlanOutOfOrder)
    } else if actual_start is Some && actual_complete is Some && actual_complete->0.before(
        actual_start->0,
    ) {
        Some(RecordError::ActualOutOfOrder)
    } else {
        None
    }
}

/// Builds a task from the fields of a stored record, or says what is wrong
/// with them. The status is a placeholder until it is next recomputed.
pub fn record_to_task(
    description: &str,
    planned_start: Option<Moment>,
    planned_complete: Option<Moment>,
    actual_start: Option<Moment>,
    actual_complete: Option<Moment>,
) -> (result: Result<Task, RecordError>)
    ensures
        match record_fault(planned_start, planned_complete, actual_start, actual_complete) {
            Some(fault) => result == Err::<Task, RecordError>(fault),
            None => {
                &&& result is Ok
                &&& result->Ok_0.description@ == description@
                &&& result->Ok_0.planned_start == planned_start
                &&& result->Ok_0.planned_complete == planned_complete
                &&& result->Ok_0.actual_start == actual_start
                &&& result->Ok_0.actual_complete == actual_complete
                &&& result->Ok_0.status == TaskStatus::Planned
                &&& !result->Ok_0.is_deleted
                &&& result->Ok_0.well_formed()
            },
        },
{
    if planned_start.is_some() != planned_complete.is_some() {
        return Err(RecordError::PlanUnpaired);
    }
    if planned_start.is_some() && planned_complete.unwrap().is_before(&planned_start.unwrap()) {
        return Err(RecordError::PlanOutOfOrder);
    }
    if actual_start.is_some() && actual_complete.is_some() && actual_complete.unwrap().is_before(
        &actual_start.unwrap(),
    ) {
        return Err(RecordError::ActualOutOfOrder);
    }
    Ok(
        Task {
            description: String::from_str(description),
            planned_start,
            planned_complete,
            actual_start,
            actual_complete,
            status: TaskStatus::Planned,
            is_deleted: false,
        },
    )
}

/// The planned start and completion of a task that starts at `start` and
/// takes `minutes` minutes, where the completion can be told.
pub fn get_planned_pair(start: Moment, minutes: usize) -> (pair: Option<(Moment, Moment)>)
    ensures
        start.utc_seconds + minutes * 60 <= i64::MAX ==> pair == Some(
            (start, start.plus_minutes(minutes as int)),
        ),
        start.utc_seconds + minutes * 60 > i64::MAX ==> pair is None,
{
    match start.checked_add_minutes(minutes) {
        Some(complete) => Some((start, complete)),
        None => None,
    }
}

/// Every task of the list with its status recomputed for instant `now`.
pub open spec fn refreshed_all(tasks: Seq<Task>, now: Moment) -> Seq<Task> {
    Seq::new(tasks.len(), |i: int| tasks[i].refreshed(now))
}

/// Whether the list is in priority order: no task ranks above one that
/// stands before it.
pub open spec fn in_priority_order(tasks: Seq<Task>) -> bool {
    forall|i: int, j: int|
        0 <= i < j < tasks.len() ==> !(#[trigger] tasks[j]).ranks_above(#[trigger] tasks[i])
}

/// Whether `after` is `before` in priority order with ties left as they
/// stood, the task now at position `k` having come from position
/// `origin[k]`: no task was lost or doubled, no task ranks above one that
/// stands before it, and of two tasks that do not rank above one another
/// the one that stood first still does.
pub open spec fn stably_sorted(after: Seq<Task>, before: Seq<Task>, origin: Seq<int>) -> bool {
    &&& after.len() == before.len()
    &&& origin.len() == before.len()
    &&& forall|k: int|
        0 <= k < after.len() ==> 0 <= #[trigger] origin[k] < before.len() && after[k]
            == before[origin[k]]
    &&& forall|k: int, l: int| 0 <= k < l < after.len() ==> #[trigger] origin[k] != #[trigger] origin[l]
    &&& forall|k: int, l: int|
        0 <= k < l < after.len() ==> !(#[trigger] after[l]).ranks_above(#[trigger] after[k])
    &&& forall|k: int, l: int|
        0 <= k < l < after.len() && !after[k].ranks_above(after[l]) ==> #[trigger] origin[k]
            < #[trigger] origin[l]
}

/// Whether every two tasks of the list can be compared for priority.
pub open spec fn all_comparable(tasks: Seq<Task>) -> bool {
    forall|i: int, j: int|
        0 <= i < tasks.len() && 0 <= j < tasks.len() ==> (#[trigger] tasks[i]).comparable_with(
            #[trigger] tasks[j],
        )
}

/// The positions, in rising order, of those among the first `n` tasks that
/// pass the filter `option`.
pub open spec fn visible_upto(tasks: Seq<Task>, option: ListOption, n: int) -> Seq<usize>
    decreases n,
{
    if n <= 0 {
        Seq::empty()
    } else if tasks[n - 1].satisfies(option) {
        visible_upto(tasks, option, n - 1).push((n - 1) as usize)
    } else {
        visible_upto(tasks, option, n - 1)
    }
}

/// The positions of all tasks that pass the filter `option`.
pub open spec fn visible(tasks: Seq<Task>, option: ListOption) -> Seq<usize> {
    visible_upto(tasks, option, tasks.len() as int)
}

/// The positions of the tasks a timeline shows: the first
/// `TIMELINE_CAPACITY` of those that pass the filter.
pub open spec fn visible_on_timeline(tasks: Seq<Task>, option: ListOption) -> Seq<usize> {
    let all = visible(tasks, option);
    if all.len() <= TIMELINE_CAPACITY {
        all
    } else {
        all.subrange(0, TIMELINE_CAPACITY as int)
    }
}

/// A listing holds the positions of the tasks that pass the filter, all of
/// them, each once, in rising order.
pub proof fn visible_lists_exactly_what_passes(tasks: Seq<Task>, option: ListOption, n: int)
    requires
        0 <= n <= tasks.len(),
        tasks.len() <= usize::MAX,
    ensures
        forall|i: int|
            0 <= i < n && (#[trigger] tasks[i]).satisfies(option) ==> visible_upto(
                tasks,
                option,
                n,
            ).contains(i as usize),
        forall|k: int|
            0 <= k < visible_upto(tasks, option, n).len() ==> (#[trigger] visible_upto(
                tasks,
                option,
                n,
            )[k]) < n && tasks[visible_upto(tasks, option, n)[k] as int].satisfies(option),
        forall|k: int, l: int|
            0 <= k < l < visible_upto(tasks, option, n).len() ==> (#[trigger] visible_upto(
                tasks,
                option,
                n,
            )[k]) < (#[trigger] visible_upto(tasks, option, n)[l]),
    decreases n,
{
    if n > 0 {
        visible_lists_exactly_what_passes(tasks, option, n - 1);
        let prior = visible_upto(tasks, option, n - 1);
        let shown = visible_upto(tasks, option, n);
        assert forall|i: int| 0 <= i < n && (#[trigger] tasks[i]).satisfies(option) implies shown.contains(
            i as usize,
        ) by {
            if i < n - 1 {
                let k = choose|k: int| 0 <= k < prior.len() && prior[k] == i as usize;
                assert(shown[k] == i as usize);
            } else {
                assert(shown[shown.len() - 1] == i as usize);
            }
        }
    }
}

/// Looking at more tasks only adds positions at the end.
proof fn visible_grows_at_the_end(tasks: Seq<Task>, option: ListOption, m: int, n: int)
    requires
        0 <= m <= n,
    ensures
        visible_upto(tasks, option, m).len() <= visible_upto(tasks, option, n).len(),
        visible_upto(tasks, option, n).subrange(0, visible_upto(tasks, option, m).len() as int)
            == visible_upto(tasks, option, m),
    decreases n - m,
{
    let short = visible_upto(tasks, option, m);
    if m < n {
        visible_grows_at_the_end(tasks, option, m, n - 1);
        let prior = visible_upto(tasks, option, n - 1);
        assert(visible_upto(tasks, option, n).subrange(0, short.len() as int) =~= prior.subrange(
            0,
            short.len() as int,
        ));
    }
}

impl Manager {
    /// The tasks, in the order of the collection.
    pub closed spec fn view(&self) -> Seq<Task> {
        self.tasks@
    }

    pub fn new(tasks: Vec<Task>) -> (manager: Manager)
        ensures
            manager@ == tasks@,
    {
        Manager { tasks }
    }

    /// The tasks, in the order of the collection.
    pub fn tasks(&self) -> (tasks: &Vec<Task>)
        ensures
            tasks@ == self@,
    {
        &self.tasks
    }

    /// Adds `task` at the end and returns its number.
    pub fn new_task(&mut self, task: Task) -> (index: usize)
        ensures
            final(self)@ == old(self)@.push(task),
            index == old(self)@.len(),
    {
        self.tasks.push(task);
        self.tasks.len() - 1
    }

    /// Recomputes the status of every task for instant `now`.
    pub fn update_status_of_all_tasks_at(&mut self, now: Moment)
        ensures
            final(self)@ == refreshed_all(old(self)@, now),
    {
        let n: usize = self.tasks.len();
        let mut i: usize = 0;
        while i < n
            invariant
                i <= n,
                n == self.tasks@.len(),
                n == old(self)@.len(),
                forall|k: int| 0 <= k < i ==> (#[trigger] self.tasks@[k]) == old(self)@[k].refreshed(now),
                forall|k: int| i <= k < n ==> (#[trigger] self.tasks@[k]) == old(self)@[k],
            decreases n - i,
        {
            self.tasks[i].update_status_at(now);
            i += 1;
        }
    }

    /// Recomputes the status of every task for the system clock's reading.
    pub fn update_status_of_all_tasks(&mut self)
        ensures
            exists|now: Moment| final(self)@ == refreshed_all(old(self)@, now),
    {
        self.update_status_of_all_tasks_at(now());
    }

    /// Moves the tasks into priority order, going by their cached statuses.
    /// Tasks that do not rank above one another keep their order.
    pub fn sort_by_priority(&mut self)
        requires
            all_comparable(old(self)@),
        ensures
            exists|origin: Seq<int>| stably_sorted(final(self)@, old(self)@, origin),
            final(self)@.to_multiset() == old(self)@.to_multiset(),
            in_priority_order(final(self)@),
            in_priority_order(old(self)@) ==> final(self)@ == old(self)@,
    {
        let ghost start = self.tasks@;
        let ghost mut origin: Seq<int> = Seq::new(start.len(), |k: int| k);
        let n: usize = self.tasks.len();
        let mut i: usize = 0;
        while i < n
            invariant
                i <= n,
                n == self.tasks@.len(),
                n == start.len(),
                n == origin.len(),
                self.tasks@.to_multiset() == start.to_multiset(),
                in_priority_order(start) ==> self.tasks@ == start,
                all_comparable(self.tasks@),
                forall|k: int|
                    0 <= k < n ==> 0 <= #[trigger] origin[k] < n && self.tasks@[k] == start[origin[k]],
                forall|k: int| i <= k < n ==> #[trigger] origin[k] == k,
                forall|k: int| 0 <= k < i ==> #[trigger] origin[k] < i,
                forall|k: int, l: int| 0 <= k < l < n ==> #[trigger] origin[k] != #[trigger] origin[l],
                forall|k: int, l: int|
                    0 <= k < l < i ==> !(#[trigger] self.tasks@[l]).ranks_above(
                        #[trigger] self.tasks@[k],
                    ),
                forall|k: int, l: int|
                    0 <= k < l < i && !self.tasks@[k].ranks_above(self.tasks@[l]) ==> #[trigger] origin[k]
                        < #[trigger] origin[l],
            decreases n - i,
        {
            let ghost before = self.tasks@;
            let ghost came = origin;
            let mut p: usize = 0;
            while p < i && !self.tasks[i].has_higher_priority_than(&self.tasks[p])
                invariant
                    p <= i < n,
                    n == self.tasks@.len(),
                    self.tasks@ == before,
                    all_comparable(before),
                    forall|k: int| 0 <= k < p ==> !before[i as int].ranks_above(#[trigger] before[k]),
                decreases i - p,
            {
                p += 1;
            }
            if p < i {
                let task = self.tasks.remove(i);
                self.tasks.insert(p, task);
                proof {
                    let moved = before[i as int];
                    let after = self.tasks@;
                    origin = came.remove(i as int).insert(p as int, i as int);
                    let src = |k: int|
                        if k < p {
                            k
                        } else if k == p {
                            i as int
                        } else if k <= i {
                            k - 1
                        } else {
                            k
                        };
                    assert forall|k: int| 0 <= k < n implies #[trigger] after[k] == before[src(k)]
                        && #[trigger] origin[k] == came[src(k)] by {}
                    assert forall|c: int| p <= c < i implies moved.ranks_above(#[trigger] before[c]) by {
                        if c > p {
                            ranking_has_levels(moved, before[c], before[p as int]);
                        }
                    }
                    assert forall|k: int, l: int| 0 <= k < l < i + 1 implies !(#[trigger] after[l]).ranks_above(
                        #[trigger] after[k],
                    ) by {
                        if k == p {
                            ranking_is_asymmetric(moved, before[src(l)]);
                        }
                    }
                    assert forall|k: int, l: int|
                        0 <= k < l < i + 1 && !after[k].ranks_above(after[l]) implies #[trigger] origin[k]
                        < #[trigger] origin[l] by {}
                    assert forall|k: int, l: int| 0 <= k < l < n implies #[trigger] origin[k]
                        != #[trigger] origin[l] by {}
                    to_multiset_remove(before, i as int);
                    to_multiset_insert(before.remove(i as int), p as int, moved);
                    before.to_multiset_ensures();
                    assert forall|a: int, b: int| 0 <= a < n && 0 <= b < n implies (#[trigger] after[a]).comparable_with(
                        #[trigger] after[b],
                    ) by {}
                }
            }
            i += 1;
        }
        assert(stably_sorted(self@, old(self)@, origin));
    }

    /// Whether `sort_by_priority` can compare every two tasks.
    pub fn is_sortable(&self) -> (b: bool)
        ensures
            b == all_comparable(self@),
    {
        let n: usize = self.tasks.len();
        let mut i: usize = 0;
        while i < n
            invariant
                i <= n,
                n == self.tasks@.len(),
                forall|a: int, b: int|
                    0 <= a < i && 0 <= b < n ==> (#[trigger] self.tasks@[a]).comparable_with(
                        #[trigger] self.tasks@[b],
                    ),
            decreases n - i,
        {
            let mut j: usize = 0;
            while j < n
                invariant
                    i < n,
                    j <= n,
                    n == self.tasks@.len(),
                    forall|b: int|
                        0 <= b < j ==> self.tasks@[i as int].comparable_with(#[trigger] self.tasks@[b]),
                decreases n - j,
            {
                if !self.tasks[i].is_comparable_with(&self.tasks[j]) {
                    return false;
                }
                j += 1;
            }
            i += 1;
        }
        true
    }

    /// Recomputes every status for instant `now`, then moves the tasks into
    /// priority order. Tasks that do not rank above one another keep their
    /// order, so a list already in priority order is only refreshed.
    pub fn sort_tasks_at(&mut self, now: Moment)
        ensures
            exists|origin: Seq<int>|
                stably_sorted(final(self)@, refreshed_all(old(self)@, now), origin),
            final(self)@.to_multiset() == refreshed_all(old(self)@, now).to_multiset(),
            in_priority_order(final(self)@),
            in_priority_order(refreshed_all(old(self)@, now)) ==> final(self)@ == refreshed_all(
                old(self)@,
                now,
            ),
    {
        self.update_status_of_all_tasks_at(now);
        proof {
            let fresh = self@;
            assert forall|a: int, b: int| 0 <= a < fresh.len() && 0 <= b < fresh.len() implies (#[trigger] fresh[a]).comparable_with(#[trigger] fresh[b]) by {
                refreshed_tasks_are_comparable(old(self)@[a], old(self)@[b], now);
            }
        }
        self.sort_by_priority();
    }

    /// Recomputes every status for the system clock's reading, then moves
    /// the tasks into priority order.
    pub fn sort_tasks(&mut self)
        ensures
            exists|now: Moment, origin: Seq<int>|
                stably_sorted(final(self)@, refreshed_all(old(self)@, now), origin),
            in_priority_order(final(self)@),
    {
        self.sort_tasks_at(now());
    }

    /// Records that work on task `index` began at `now`.
    pub fn start_task_at(&mut self, index: usize, now: Moment) -> (result: Result<(), CommandError>)
        ensures
            index < old(self)@.len() ==> result is Ok && final(self)@ == old(self)@.update(
                index as int,
                old(self)@[index as int].started(now),
            ),
            index >= old(self)@.len() ==> result == Err::<(), CommandError>(
                CommandError::IndexOutOfRange,
            ) && final(self)@ == old(self)@,
    {
        if self.tasks.len() <= index {
            Err(CommandError::IndexOutOfRange)
        } else {
            self.tasks[index].start_at(now);
            Ok(())
        }
    }

    /// Records that work on task `index` began at the system clock's
    /// reading.
    pub fn start_task(&mut self, index: usize) -> (result: Result<(), CommandError>)
        ensures
            index < old(self)@.len() ==> result is Ok && exists|now: Moment|
                final(self)@ == old(self)@.update(index as int, old(self)@[index as int].started(now)),
            index >= old(self)@.len() ==> result == Err::<(), CommandError>(
                CommandError::IndexOutOfRange,
            ) && final(self)@ == old(self)@,
    {
        self.start_task_at(index, now())
    }

    /// Records that task `index` was finished at `now`.
    pub fn complete_task_at(&mut self, index: usize, now: Moment) -> (result: Result<
        (),
        CommandError,
    >)
        ensures
            index < old(self)@.len() ==> result is Ok && final(self)@ == old(self)@.update(
                index as int,
                old(self)@[index as int].completed(now),
            ),
            index >= old(self)@.len() ==> result == Err::<(), CommandError>(
                CommandError::IndexOutOfRange,
            ) && final(self)@ == old(self)@,
    {
        if self.tasks.len() <= index {
            Err(CommandError::IndexOutOfRange)
        } else {
            self.tasks[index].complete_at(now);
            assert(self@ =~= old(self)@.update(
                index as int,
                old(self)@[index as int].completed(now),
            ));
            Ok(())
        }
    }

    /// Records that task `index` was finished at the system clock's
    /// reading.
    pub fn complete_task(&mut self, index: usize) -> (result: Result<(), CommandError>)
        ensures
            index < old(self)@.len() ==> result is Ok && exists|now: Moment|
                final(self)@ == old(self)@.update(
                    index as int,
                    old(self)@[index as int].completed(now),
                ),
            index >= old(self)@.len() ==> result == Err::<(), CommandError>(
                CommandError::IndexOutOfRange,
            ) && final(self)@ == old(self)@,
    {
        self.complete_task_at(index, now())
    }

    /// Takes task `index` out of the collection; the tasks behind it move
    /// up by one.
    pub fn delete_task(&mut self, index: usize) -> (result: Result<(), CommandError>)
        ensures
            index < old(self)@.len() ==> result is Ok && final(self)@ == old(self)@.remove(
                index as int,
            ),
            index >= old(self)@.len() ==> result == Err::<(), CommandError>(
                CommandError::IndexOutOfRange,
            ) && final(self)@ == old(self)@,
    {
        if self.tasks.len() <= index {
            Err(CommandError::IndexOutOfRange)
        } else {
            let _ = self.tasks.remove(index);
            Ok(())
        }
    }

    /// Applies `edit` to task `index` and recomputes its status for `now`.
    pub fn edit_task_at(&mut self, index: usize, edit: TaskEdit, now: Moment) -> (result: Result<
        (),
        CommandError,
    >)
        ensures
            index < old(self)@.len() ==> result is Ok && final(self)@ == old(self)@.update(
                index as int,
                edited(old(self)@[index as int], edit, now),
            ),
            index >= old(self)@.len() ==> result == Err::<(), CommandError>(
                CommandError::IndexOutOfRange,
            ) && final(self)@ == old(self)@,
    {
        if self.tasks.len() <= index {
            Err(CommandError::IndexOutOfRange)
        } else {
            let TaskEdit { description, planned, actual_start, actual_complete } = edit;
            if description.as_str().unicode_len() != 0 {
                self.tasks[index].description = description;
            }
            match planned {
                PlanEdit::Ignore => {},
                PlanEdit::Reset => {
                    self.tasks[index].planned_start = None;
                    self.tasks[index].planned_complete = None;
                },
                PlanEdit::Update(start, complete) => {
                    self.tasks[index].planned_start = Some(start);
                    self.tasks[index].planned_complete = Some(complete);
                },
            }
            let started: Option<Moment> = actual_start.apply(self.tasks[index].actual_start);
            self.tasks[index].actual_start = started;
            let finished: Option<Moment> = actual_complete.apply(self.tasks[index].actual_complete);
            self.tasks[index].actual_complete = finished;
            self.tasks[index].update_status_at(now);
            assert(self@ =~= old(self)@.update(
                index as int,
                edited(old(self)@[index as int], edit, now),
            ));
            Ok(())
        }
    }

    /// Recomputes every status for instant `now` and returns the numbers of
    /// the tasks that pass the filter, in rising order.
    pub fn list_tasks_at(&mut self, option: &ListOption, now: Moment) -> (shown: Vec<usize>)
        ensures
            final(self)@ == refreshed_all(old(self)@, now),
            shown@ == visible(final(self)@, *option),
    {
        self.update_status_of_all_tasks_at(now);
        let n: usize = self.tasks.len();
        let mut shown: Vec<usize> = Vec::new();
        let mut i: usize = 0;
        while i < n
            invariant
                i <= n,
                n == self.tasks@.len(),
                self@ == refreshed_all(old(self)@, now),
                shown@ == visible_upto(self@, *option, i as int),
            decreases n - i,
        {
            if self.tasks[i].satisfy(option) {
                shown.push(i);
            }
            i += 1;
        }
        shown
    }

    /// Recomputes every status for instant `now` and returns the numbers of
    /// the tasks that a timeline shows: the first `TIMELINE_CAPACITY` that
    /// pass the filter, in rising order. The task at position `i` of the
    /// result is the one marked `index_letter(i)`.
    pub fn list_tasks_with_timeline_at(&mut self, option: &ListOption, now: Moment) -> (shown: Vec<
        usize,
    >)
        requires
            option.date_filter.0 == DateFilterOp::Equal,
        ensures
            final(self)@ == refreshed_all(old(self)@, now),
            shown@ == visible_on_timeline(final(self)@, *option),
            shown@.len() <= TIMELINE_CAPACITY,
    {
        self.update_status_of_all_tasks_at(now);
        let n: usize = self.tasks.len();
        let mut shown: Vec<usize> = Vec::new();
        let mut i: usize = 0;
        while i < n && shown.len() < TIMELINE_CAPACITY
            invariant
                i <= n,
                n == self.tasks@.len(),
                self@ == refreshed_all(old(self)@, now),
                shown@ == visible_upto(self@, *option, i as int),
                shown@.len() <= TIMELINE_CAPACITY,
            decreases n - i,
        {
            if self.tasks[i].satisfy(option) {
                shown.push(i);
            }
            i += 1;
        }
        proof {
            visible_grows_at_the_end(self@, *option, i as int, n as int);
        }
        shown
    }
}

/// Whether `command` can be applied: a listing with a timeline must ask
/// for one day.
pub open spec fn appliable(command: Command) -> bool {
    match command {
        Command::List(option) => option.has_timeline ==> option.date_filter.0 == DateFilterOp::Equal,
        _ => true,
    }
}

/// The collection after `command` was applied at instant `now`. A task
/// number that is out of range changes nothing; a new task and an edit
/// are applied only once the user has been asked.
pub open spec fn after_command(tasks: Seq<Task>, command: Command, now: Moment) -> Seq<Task> {
    match command {
        Command::Start(index) => if index < tasks.len() {
            tasks.update(index as int, tasks[index as int].started(now))
        } else {
            tasks
        },
        Command::Complete(index) => if index < tasks.len() {
            tasks.update(index as int, tasks[index as int].completed(now))
        } else {
            tasks
        },
        Command::Delete(index) => if index < tasks.len() {
            tasks.remove(index as int)
        } else {
            tasks
        },
        Command::List(_) => refreshed_all(tasks, now),
        _ => tasks,
    }
}

/// Whether applying `command` to the tasks `before` at instant `now` leaves
/// the tasks `after` and the outcome `outcome`.
pub open spec fn command_applied(
    before: Seq<Task>,
    command: Command,
    now: Moment,
    after: Seq<Task>,
    outcome: Outcome,
) -> bool {
    &&& match command {
        Command::Sort => {
            &&& exists|origin: Seq<int>| stably_sorted(after, refreshed_all(before, now), origin)
            &&& after.to_multiset() == refreshed_all(before, now).to_multiset()
            &&& in_priority_order(after)
            &&& in_priority_order(refreshed_all(before, now)) ==> after == refreshed_all(before, now)
        },
        _ => after == after_command(before, command, now),
    }
    &&& match command {
        Command::Empty => outcome == Outcome::Idle,
        Command::Quit => outcome == Outcome::Quit,
        Command::Help => outcome == Outcome::Usage,
        Command::New => outcome == Outcome::AskNew,
        Command::Sort => outcome == Outcome::Sorted,
        Command::Start(index) => outcome == (if index < before.len() {
            Outcome::Started(index)
        } else {
            Outcome::IndexOutOfRange
        }),
        Command::Complete(index) => outcome == (if index < before.len() {
            Outcome::Completed(index)
        } else {
            Outcome::IndexOutOfRange
        }),
        Command::Delete(index) => outcome == (if index < before.len() {
            Outcome::Deleted(index)
        } else {
            Outcome::IndexOutOfRange
        }),
        Command::Edit(index) => outcome == (if index < before.len() {
            Outcome::AskEdit(index)
        } else {
            Outcome::IndexOutOfRange
        }),
        Command::List(option) => if option.has_timeline {
            outcome matches Outcome::Charted(shown) && shown@ == visible_on_timeline(after, option)
        } else {
            outcome matches Outcome::Listed(shown) && shown@ == visible(after, option)
        },
    }
}

impl Manager {
    /// Whether `dispatch_command_at` can apply `command`.
    pub fn can_dispatch(command: &Command) -> (b: bool)
        ensures
            b == appliable(*command),
    {
        match command {
            Command::List(option) => !option.has_timeline || (match option.date_filter.0 {
                DateFilterOp::Equal => true,
                _ => false,
            }),
            _ => true,
        }
    }

    /// Applies `command` to the collection at instant `now` and says what is
    /// left to do: what to ask, what to show, whether to save.
    pub fn dispatch_command_at(&mut self, command: &Command, now: Moment) -> (outcome: Outcome)
        requires
            appliable(*command),
        ensures
            command_applied(old(self)@, *command, now, final(self)@, outcome),
    {
        match command {
            Command::Empty => Outcome::Idle,
            Command::Quit => Outcome::Quit,
            Command::Help => Outcome::Usage,
            Command::New => Outcome::AskNew,
            Command::Sort => {
                self.sort_tasks_at(now);
                Outcome::Sorted
            },
            Command::Start(index) => match self.start_task_at(*index, now) {
                Ok(_) => Outcome::Started(*index),
                Err(_) => Outcome::IndexOutOfRange,
            },
            Command::Complete(index) => match self.complete_task_at(*index, now) {
                Ok(_) => Outcome::Completed(*index),
                Err(_) => Outcome::IndexOutOfRange,
            },
            Command::Delete(index) => match self.delete_task(*index) {
                Ok(_) => Outcome::Deleted(*index),
                Err(_) => Outcome::IndexOutOfRange,
            },
            Command::Edit(index) => if *index < self.tasks.len() {
                Outcome::AskEdit(*index)
            } else {
                Outcome::IndexOutOfRange
            },
            Command::List(option) => if option.has_timeline {
                Outcome::Charted(self.list_tasks_with_timeline_at(option, now))
            } else {
                Outcome::Listed(self.list_tasks_at(option, now))
            },
        }
    }

    /// Applies `command` at the system clock's reading.
    pub fn dispatch_command(&mut self, command: &Command) -> (outcome: Outcome)
        requires
            appliable(*command),
        ensures
            exists|now: Moment| command_applied(old(self)@, *command, now, final(self)@, outcome),
    {
        self.dispatch_command_at(command, now())
    }
}

} // verus!
