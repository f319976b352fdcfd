//! One calendar day drawn as rows of intervals on a fixed-width grid.
use vstd::prelude::*;
use vstd::string::*;
use crate::clock::{div_floor, now, Date, Moment};
use crate::manager::{index_letter, timeline_index_to_char};
use crate::task::{status_color, Color, Task};

verus! {

/// Width of the grid in cells: one per ten minutes from 08:00 to 20:00, both
/// ends included.
pub const UI_MAX_WIDTH: usize = 73;

/// One cell of the grid: a glyph and, where it has one, its colour.
#[derive(Clone, Debug, Copy, PartialEq, Eq)]
pub struct Pixel {
    pub content: char,
    pub color: Option<Color>,
}

/// A grid as rows of cells.
pub type Grid = Seq<Seq<Pixel>>;

/// The cell that shows nothing.
pub open spec fn blank_pixel() -> Pixel {
    Pixel { content: ' ', color: None }
}

/// A row of `UI_MAX_WIDTH` cells that show nothing.
pub open spec fn blank_row() -> Seq<Pixel> {
    Seq::new(UI_MAX_WIDTH as nat, |c: int| blank_pixel())
}

/// The column of a moment: ten-minute steps from 08:00 of its local day,
/// rounded down; negative before 08:00.
pub open spec fn column_of(t: Moment) -> int {
    (t.second_of_day() - 28_800) / 600
}

/// A column moved to the nearest one that is drawn in, which are columns 1
/// to `UI_MAX_WIDTH - 2`: what lies outside the hours shown collapses onto
/// the edge.
pub open spec fn clamp_column(pos: int) -> int {
    if pos < 1 {
        1
    } else if pos > UI_MAX_WIDTH - 2 {
        UI_MAX_WIDTH - 2
    } else {
        pos
    }
}

/// Whether `row` has room for an interval over columns `start..=end` and for
/// its letter in the column before `start`.
pub open spec fn row_is_free(row: Seq<Pixel>, start: int, end: int) -> bool {
    forall|c: int| start - 1 <= c <= end ==> (#[trigger] row[c]).blank()
}

/// The first row at or after `from` with room for the interval, or the
/// number of rows when there is none.
pub open spec fn first_fit_from(grid: Grid, from: int, start: int, end: int) -> int
    decreases grid.len() - from,
{
    if from < 0 || from >= grid.len() {
        grid.len() as int
    } else if row_is_free(grid[from], start, end) {
        from
    } else {
        first_fit_from(grid, from + 1, start, end)
    }
}

/// The cell that shows the letter `index` in the colour of `pixel`.
pub open spec fn letter_pixel(index: char, pixel: Pixel) -> Pixel {
    Pixel { content: index, color: pixel.color }
}

/// `row` with `pixel` in columns `start..=end`.
pub open spec fn filled_row(row: Seq<Pixel>, start: int, end: int, pixel: Pixel) -> Seq<Pixel> {
    Seq::new(
        row.len(),
        |c: int|
            if start <= c <= end {
                pixel
            } else {
                row[c]
            },
    )
}

/// `row` with `pixel` in columns `start..=end` and the letter `index`, in
/// the pixel's colour, in the column before `start`.
pub open spec fn painted_row(row: Seq<Pixel>, start: int, end: int, index: char, pixel: Pixel) -> Seq<
    Pixel,
> {
    filled_row(row, start, end, pixel).update(start - 1, letter_pixel(index, pixel))
}

/// `grid` after an interval over columns `start..=end` was placed first-fit:
/// in the topmost row with room for it, or in a fresh row below the others.
pub open spec fn placed(grid: Grid, start: int, end: int, index: char, pixel: Pixel) -> Grid {
    let row = first_fit_from(grid, 0, start, end);
    let base = if row == grid.len() {
        grid.push(blank_row())
    } else {
        grid
    };
    base.update(row, painted_row(base[row], start, end, index, pixel))
}

/// Whether `t` is set and falls on local day `date`.
pub open spec fn on_date(t: Option<Moment>, date: Date) -> bool {
    t is Some && t->0.local_day() == date.days
}

/// The columns of the planned interval that `task` shows on `date`: both
/// ends of the plan must fall on that day.
pub open spec fn planned_interval(task: Task, date: Date) -> Option<(int, int)> {
    if on_date(task.planned_start, date) && on_date(task.planned_complete, date) {
        Some(
            (
                clamp_column(column_of(task.planned_start->0)),
                clamp_column(column_of(task.planned_complete->0)),
            ),
        )
    } else {
        None
    }
}

/// The columns of the interval of actual work that `task` shows on `date`.
/// Work begun that day runs to its completion if that falls on the day too,
/// else to the cursor if there is one, else to the right edge. Work only
/// completed that day runs from the left edge to its completion.
pub open spec fn actual_interval(task: Task, date: Date, pos_of_now: Option<i64>) -> Option<
    (int, int),
> {
    if on_date(task.actual_start, date) {
        let end = if on_date(task.actual_complete, date) {
            column_of(task.actual_complete->0)
        } else if pos_of_now is Some {
            pos_of_now->0 as int
        } else {
            UI_MAX_WIDTH - 1
        };
        Some((clamp_column(column_of(task.actual_start->0)), clamp_column(end)))
    } else if on_date(task.actual_complete, date) {
        Some((1, clamp_column(column_of(task.actual_complete->0))))
    } else {
        None
    }
}

/// Whether an interval, if there is one, ends no earlier than it starts.
pub open spec fn runs_forward(interval: Option<(int, int)>) -> bool {
    match interval {
        Some((start, end)) => start <= end,
        None => true,
    }
}

/// Whether both intervals of `task` can be drawn. A deleted task has none.
pub open spec fn task_fits(task: Task, date: Date, pos_of_now: Option<i64>) -> bool {
    task.is_deleted || (runs_forward(planned_interval(task, date)) && runs_forward(
        actual_interval(task, date, pos_of_now),
    ))
}

/// Whether every task of the list can be drawn.
pub open spec fn all_fit(tasks: Seq<Task>, date: Date, pos_of_now: Option<i64>) -> bool {
    forall|i: int| 0 <= i < tasks.len() ==> task_fits(#[trigger] tasks[i], date, pos_of_now)
}

/// `grid` with `interval` placed, if there is one.
pub open spec fn with_interval(grid: Grid, interval: Option<(int, int)>, index: char, pixel: Pixel) -> Grid {
    match interval {
        Some((start, end)) => placed(grid, start, end, index, pixel),
        None => grid,
    }
}

/// `grid` with the intervals of `task` placed under the letter `index`: the
/// plan in `-`, then the actual work in `=`, both in the colour of the
/// task's status. A deleted task leaves the grid as it is.
pub open spec fn with_task(grid: Grid, task: Task, index: char, date: Date, pos_of_now: Option<i64>) -> Grid {
    if task.is_deleted {
        grid
    } else {
        let color = Some(status_color(task.status));
        with_interval(
            with_interval(
                grid,
                planned_interval(task, date),
                index,
                Pixel { content: '-', color },
            ),
            actual_interval(task, date, pos_of_now),
            index,
            Pixel { content: '=', color },
        )
    }
}

/// `grid` with the first `n` tasks placed in list order, the task at
/// position `i` under the letter `index_letter(i)`.
pub open spec fn with_tasks(grid: Grid, tasks: Seq<Task>, n: int, date: Date, pos_of_now: Option<i64>) -> Grid
    decreases n,
{
    if n <= 0 {
        grid
    } else {
        with_task(
            with_tasks(grid, tasks, n - 1, date, pos_of_now),
            tasks[n - 1],
            index_letter(n - 1),
            date,
            pos_of_now,
        )
    }
}

/// The cell that shows `content` without colour.
pub open spec fn plain_pixel(content: char) -> Pixel {
    Pixel { content, color: None }
}

/// A row that shows `text` without colour.
pub open spec fn text_row(text: Seq<char>) -> Seq<Pixel> {
    Seq::new(text.len(), |c: int| plain_pixel(text[c]))
}

/// The hours above and below the chart.
pub open spec fn scale_labels() -> Seq<Pixel> {
    text_row("8     9     10    11    12    13    14    15    16    17    18    19    20"@)
}

/// The tick marks above and below the chart, one `|` per hour.
pub open spec fn scale_ticks() -> Seq<Pixel> {
    text_row("|-----|-----|-----|-----|-----|-----|-----|-----|-----|-----|-----|-----|"@)
}

/// `grid` between the two lines of the hour scale, above and below.
pub open spec fn framed(grid: Grid) -> Grid {
    seq![scale_labels(), scale_ticks()] + grid + seq![scale_ticks(), scale_labels()]
}

/// A cell of the cursor that marks the present.
pub open spec fn cursor_pixel(content: char) -> Pixel {
    Pixel { content, color: Some(Color::Red) }
}

/// A framed `grid` with the cursor in column `pos`: `v` on the upper tick
/// line, `^` on the lower one, and `|` in every row between them whose cell
/// there shows nothing yet.
pub open spec fn with_cursor(grid: Grid, pos: int) -> Grid {
    Seq::new(
        grid.len(),
        |r: int|
            if r == 1 {
                grid[r].update(pos, cursor_pixel('v'))
            } else if r == grid.len() - 2 {
                grid[r].update(pos, cursor_pixel('^'))
            } else if 2 <= r < grid.len() - 2 && grid[r][pos].blank() {
                grid[r].update(pos, cursor_pixel('|'))
            } else {
                grid[r]
            },
    )
}

/// The finished chart: the tasks placed on `grid`, the hour scale around
/// them and, where the present is on the chart, the cursor.
pub open spec fn rendered(grid: Grid, tasks: Seq<Task>, date: Date, pos_of_now: Option<i64>) -> Grid {
    let chart = framed(with_tasks(grid, tasks, tasks.len() as int, date, pos_of_now));
    match pos_of_now {
        Some(pos) => with_cursor(chart, clamp_column(pos as int)),
        None => chart,
    }
}

/// Whether every row of `grid` has at least `UI_MAX_WIDTH` cells.
pub open spec fn full_width(grid: Grid) -> bool {
    forall|r: int| 0 <= r < grid.len() ==> (#[trigger] grid[r]).len() >= UI_MAX_WIDTH
}

impl Pixel {
    /// Whether the cell shows nothing.
    pub open spec fn blank(self) -> bool {
        self.content == ' '
    }

    pub fn default() -> (p: Pixel)
        ensures
            p == blank_pixel(),
    {
        Pixel::new(' ', None)
    }

    pub fn new(content: char, color: Option<Color>) -> (p: Pixel)
        ensures
            p.content == content,
            p.color == color,
    {
        Pixel { content, color }
    }

    pub fn set_if_empty(&mut self, pixel: Pixel)
        ensures
            *final(self) == (if old(self).blank() {
                pixel
            } else {
                *old(self)
            }),
    {
        if self.is_empty() {
            *self = pixel;
        }
    }

    pub fn is_empty(&self) -> (b: bool)
        ensures
            b == self.blank(),
    {
        self.content == ' '
    }
}

pub fn get_pos_in_row(dt: &Moment) -> (pos: i64)
    ensures
        pos == column_of(*dt),
        -48 <= pos <= 95,
{
    let seconds: u32 = dt.num_seconds_from_midnight();
    div_floor(seconds as i128 - 28_800, 600) as i64
}

/// The column in which a time of column `pos` is drawn.
pub fn clamp_to_columns(pos: i64) -> (c: usize)
    ensures
        c == clamp_column(pos as int),
        1 <= c <= UI_MAX_WIDTH - 2,
{
    if pos < 1 {
        1
    } else if pos > 71 {
        71
    } else {
        pos as usize
    }
}

pub fn can_put_in_row(row: &Vec<Pixel>, start_pos: usize, end_pos: usize) -> (b: bool)
    requires
        1 <= start_pos,
        end_pos < row.len(),
    ensures
        b == row_is_free(row@, start_pos as int, end_pos as int),
{
    let mut c: usize = start_pos - 1;
    while c <= end_pos
        invariant
            start_pos - 1 <= c,
            end_pos < row.len(),
            forall|k: int| start_pos - 1 <= k < c ==> (#[trigger] row@[k]).blank(),
        decreases end_pos + 1 - c,
    {
        if !row[c].is_empty() {
            return false;
        }
        c += 1;
    }
    true
}

/// The rows of a stored grid as sequences of cells.
pub open spec fn grid_of(rows: Seq<Vec<Pixel>>) -> Grid {
    Seq::new(rows.len(), |r: int| rows[r]@)
}

/// The tasks of a listing, without their positions in the collection.
pub open spec fn task_list(tasks: Seq<(usize, &Task)>) -> Seq<Task> {
    Seq::new(tasks.len(), |i: int| *tasks[i].1)
}

/// Where the cursor stands on the chart of `date` at instant `now`: in the
/// column of `now` when that is the day shown, nowhere otherwise.
pub open spec fn cursor_at(date: Date, now: Moment) -> Option<i64> {
    if now.local_day() == date.days {
        Some(column_of(now) as i64)
    } else {
        None
    }
}

/// A row found by trying the rows from `from` downwards is the first fit.
proof fn first_fit_found(grid: Grid, from: int, row: int, start: int, end: int)
    requires
        0 <= from <= row <= grid.len(),
        forall|r: int| from <= r < row ==> !row_is_free(#[trigger] grid[r], start, end),
        row == grid.len() || row_is_free(grid[row], start, end),
    ensures
        first_fit_from(grid, from, start, end) == row,
    decreases row - from,
{
    if from < row {
        first_fit_found(grid, from + 1, row, start, end);
    }
}

/// The hour scale is at least as wide as the grid, so framing keeps rows at
/// full width and adds four of them.
proof fn frame_keeps_width(grid: Grid)
    requires
        full_width(grid),
    ensures
        full_width(framed(grid)),
        framed(grid).len() == grid.len() + 4,
        scale_labels().len() == UI_MAX_WIDTH + 1,
        scale_ticks().len() == UI_MAX_WIDTH,
{
    reveal_strlit("8     9     10    11    12    13    14    15    16    17    18    19    20");
    reveal_strlit("|-----|-----|-----|-----|-----|-----|-----|-----|-----|-----|-----|-----|");
    let f = framed(grid);
    assert forall|r: int| 0 <= r < f.len() implies (#[trigger] f[r]).len() >= UI_MAX_WIDTH by {}
}

/// The chart of one day for a list of tasks.
pub struct Timeline<'a> {
    tasks: &'a Vec<(usize, &'a Task)>,
    canvas: Vec<Vec<Pixel>>,
    date: Date,
    pos_of_now: Option<i64>,
}

impl<'a> Timeline<'a> {
    /// The grid drawn so far.
    pub closed spec fn grid(self) -> Grid {
        grid_of(self.canvas@)
    }

    /// The tasks to draw, in list order.
    pub closed spec fn tasks(self) -> Seq<Task> {
        task_list(self.tasks@)
    }

    /// The day shown.
    pub closed spec fn date(self) -> Date {
        self.date
    }

    /// The column of the present, when the day shown is today.
    pub closed spec fn pos_of_now(self) -> Option<i64> {
        self.pos_of_now
    }

    /// Every row is wide enough, and there is a letter for each task.
    pub open spec fn well_formed(self) -> bool {
        full_width(self.grid()) && self.tasks().len() <= 26
    }

    /// Whether `other` shows the same tasks on the same day with the same
    /// cursor; the grids may differ.
    pub open spec fn same_subject(self, other: Self) -> bool {
        self.tasks() == other.tasks() && self.date() == other.date() && self.pos_of_now()
            == other.pos_of_now()
    }

    /// Whether `draw` can place every interval: none of them ends before it
    /// starts.
    pub open spec fn drawable(self) -> bool {
        all_fit(self.tasks(), self.date(), self.pos_of_now())
    }

    /// An empty chart of `date` for `tasks`, with the present at `now`.
    pub fn new_at(tasks: &'a Vec<(usize, &'a Task)>, date: Date, now: &Moment) -> (timeline: Self)
        requires
            tasks.len() <= 26,
        ensures
            timeline.well_formed(),
            timeline.grid() == Seq::<Seq<Pixel>>::empty(),
            timeline.tasks() == task_list(tasks@),
            timeline.date() == date,
            timeline.pos_of_now() == cursor_at(date, *now),
    {
        let pos_of_now = if now.date_naive().days == date.days {
            Some(get_pos_in_row(now))
        } else {
            None
        };
        let timeline = Timeline { tasks, canvas: Vec::new(), date, pos_of_now };
        timeline
    }

    /// An empty chart of `date` for `tasks`, with the present read from the
    /// system clock.
    pub fn new(tasks: &'a Vec<(usize, &'a Task)>, date: Date) -> (timeline: Self)
        requires
            tasks.len() <= 26,
        ensures
            timeline.well_formed(),
            timeline.grid() == Seq::<Seq<Pixel>>::empty(),
            timeline.tasks() == task_list(tasks@),
            timeline.date() == date,
            exists|now: Moment| timeline.pos_of_now() == cursor_at(date, now),
    {
        let now = now();
        Timeline::new_at(tasks, date, &now)
    }

    /// The rows drawn so far, top to bottom.
    pub fn rows(&self) -> (rows: &Vec<Vec<Pixel>>)
        ensures
            grid_of(rows@) == self.grid(),
    {
        &self.canvas
    }

    /// Whether every interval of every task runs forward, so that `draw` can
    /// place them all.
    pub fn is_drawable(&self) -> (b: bool)
        ensures
            b == self.drawable(),
    {
        let n: usize = self.tasks.len();
        let mut i: usize = 0;
        while i < n
            invariant
                i <= n,
                n == self.tasks@.len(),
                forall|k: int| 0 <= k < i ==> task_fits(#[trigger] self.tasks()[k], self.date, self.pos_of_now),
            decreases n - i,
        {
            let task: &Task = self.tasks[i].1;
            assert(*task == self.tasks()[i as int]);
            if !self.fits(task) {
                return false;
            }
            i += 1;
        }
        true
    }

    /// Whether both intervals of `task` run forward on this chart.
    fn fits(&self, task: &Task) -> (b: bool)
        ensures
            b == task_fits(*task, self.date, self.pos_of_now),
    {
        if task.is_deleted {
            return true;
        }
        if self.date_includes(&task.planned_start) && self.date_includes(&task.planned_complete) {
            let start_pos: usize = clamp_to_columns(get_pos_in_row(&task.planned_start.unwrap()));
            let end_pos: usize = clamp_to_columns(get_pos_in_row(&task.planned_complete.unwrap()));
            if start_pos > end_pos {
                return false;
            }
        }
        if self.date_includes(&task.actual_start) {
            let start_pos: usize = clamp_to_columns(get_pos_in_row(&task.actual_start.unwrap()));
            let end_pos: usize = clamp_to_columns(self.end_of_work(task));
            start_pos <= end_pos
        } else {
            true
        }
    }

    /// The column in which work begun on the day shown ends: that of its
    /// completion if it falls on the day too, else the cursor's, else the
    /// right edge.
    fn end_of_work(&self, task: &Task) -> (pos: i64)
        ensures
            pos == (if on_date(task.actual_complete, self.date) {
                column_of(task.actual_complete->0)
            } else if self.pos_of_now is Some {
                self.pos_of_now->0 as int
            } else {
                UI_MAX_WIDTH - 1
            }),
    {
        if self.date_includes(&task.actual_complete) {
            get_pos_in_row(&task.actual_complete.unwrap())
        } else {
            match self.pos_of_now {
                Some(pos) => pos,
                None => 72,
            }
        }
    }

    pub fn draw(&mut self)
        requires
            old(self).well_formed(),
            old(self).drawable(),
        ensures
            final(self).same_subject(*old(self)),
            final(self).grid() == rendered(
                old(self).grid(),
                old(self).tasks(),
                old(self).date(),
                old(self).pos_of_now(),
            ),
            full_width(final(self).grid()),
    {
        let ghost before = *self;
        let n: usize = self.tasks.len();
        let mut timeline_index: usize = 0;
        while timeline_index < n
            invariant
                timeline_index <= n,
                n == self.tasks@.len(),
                n <= 26,
                self.well_formed(),
                self.same_subject(before),
                before.drawable(),
                self.grid() == with_tasks(
                    before.grid(),
                    before.tasks(),
                    timeline_index as int,
                    before.date(),
                    before.pos_of_now(),
                ),
            decreases n - timeline_index,
        {
            let task: &Task = self.tasks[timeline_index].1;
            assert(*task == self.tasks()[timeline_index as int]);
            self.populate_task(task, timeline_index_to_char(timeline_index));
            timeline_index += 1;
        }
        self.populate_scale_line();
        self.populate_now_cursor();
    }

    fn populate_scale_line(&mut self)
        requires
            full_width(old(self).grid()),
        ensures
            final(self).same_subject(*old(self)),
            final(self).grid() == framed(old(self).grid()),
            full_width(final(self).grid()),
    {
        let labels = "8     9     10    11    12    13    14    15    16    17    18    19    20";
        let ticks = "|-----|-----|-----|-----|-----|-----|-----|-----|-----|-----|-----|-----|";
        proof {
            reveal_strlit("8     9     10    11    12    13    14    15    16    17    18    19    20");
            reveal_strlit("|-----|-----|-----|-----|-----|-----|-----|-----|-----|-----|-----|-----|");
        }
        self.canvas.insert(0, row_of_text(labels));
        self.canvas.insert(1, row_of_text(ticks));
        let len: usize = self.canvas.len();
        self.canvas.insert(len, row_of_text(ticks));
        let len: usize = self.canvas.len();
        self.canvas.insert(len, row_of_text(labels));
        proof {
            frame_keeps_width(old(self).grid());
        }
    }

    fn populate_now_cursor(&mut self)
        requires
            full_width(old(self).grid()),
            old(self).grid().len() >= 4,
        ensures
            final(self).same_subject(*old(self)),
            final(self).grid() == (match old(self).pos_of_now() {
                Some(pos) => with_cursor(old(self).grid(), clamp_column(pos as int)),
                None => old(self).grid(),
            }),
            full_width(final(self).grid()),
    {
        let pos: usize = match self.pos_of_now {
            None => {
                return ;
            },
            Some(pos) => clamp_to_columns(pos),
        };
        let ghost before = self.grid();
        let bottom: usize = self.canvas.len() - 2;
        assert(self.canvas@[1]@ == before[1]);
        assert(self.canvas@[bottom as int]@ == before[bottom as int]);
        self.canvas[1][pos] = Pixel::new('v', Some(Color::Red));
        self.canvas[bottom][pos] = Pixel::new('^', Some(Color::Red));
        let mut row: usize = 2;
        while row < bottom
            invariant
                2 <= row <= bottom,
                bottom == self.canvas@.len() - 2,
                pos < UI_MAX_WIDTH,
                before.len() == self.canvas@.len(),
                full_width(before),
                self.same_subject(*old(self)),
                forall|r: int|
                    0 <= r < before.len() ==> (#[trigger] self.canvas@[r])@ == (if r < row || r
                        == bottom {
                        with_cursor(before, pos as int)[r]
                    } else {
                        before[r]
                    }),
            decreases bottom - row,
        {
            if self.canvas[row][pos].is_empty() {
                self.canvas[row][pos] = Pixel::new('|', Some(Color::Red));
            }
            row += 1;
        }
    }

    fn populate_task(&mut self, task: &Task, index: char)
        requires
            old(self).well_formed(),
            task_fits(*task, old(self).date(), old(self).pos_of_now()),
        ensures
            final(self).well_formed(),
            final(self).same_subject(*old(self)),
            final(self).grid() == with_task(
                old(self).grid(),
                *task,
                index,
                old(self).date(),
                old(self).pos_of_now(),
            ),
    {
        if task.is_deleted {
            return ;
        }
        if self.date_includes(&task.planned_start) && self.date_includes(&task.planned_complete) {
            let start_pos: i64 = get_pos_in_row(&task.planned_start.unwrap());
            let end_pos: i64 = get_pos_in_row(&task.planned_complete.unwrap());
            self.populate_index_and_line(
                start_pos,
                end_pos,
                index,
                Pixel::new('-', Some(task.color_of_status())),
            );
        }
        if self.date_includes(&task.actual_start) {
            let start_pos: i64 = get_pos_in_row(&task.actual_start.unwrap());
            let end_pos: i64 = self.end_of_work(task);
            self.populate_index_and_line(
                start_pos,
                end_pos,
                index,
                Pixel::new('=', Some(task.color_of_status())),
            );
        } else if self.date_includes(&task.actual_complete) {
            let end_pos: i64 = get_pos_in_row(&task.actual_complete.unwrap());
            self.populate_index_and_line(
                1,
                end_pos,
                index,
                Pixel::new('=', Some(task.color_of_status())),
            );
        }
    }

    fn date_includes(&self, datetime: &Option<Moment>) -> (b: bool)
        ensures
            b == on_date(*datetime, self.date),
    {
        match datetime {
            Some(dt) => dt.date_naive().days == self.date.days,
            None => false,
        }
    }

    fn populate_index_and_line(&mut self, start_pos: i64, end_pos: i64, index: char, pixel: Pixel)
        requires
            old(self).well_formed(),
            clamp_column(start_pos as int) <= clamp_column(end_pos as int),
        ensures
            final(self).well_formed(),
            final(self).same_subject(*old(self)),
            final(self).grid() == placed(
                old(self).grid(),
                clamp_column(start_pos as int),
                clamp_column(end_pos as int),
                index,
                pixel,
            ),
    {
        let start_pos: usize = clamp_to_columns(start_pos);
        let end_pos: usize = clamp_to_columns(end_pos);
        let ghost before = self.grid();
        let n: usize = self.canvas.len();
        let mut row: usize = 0;
        let mut found: bool = false;
        while row < n && !found
            invariant
                row <= n,
                n == self.canvas@.len(),
                self.grid() == before,
                full_width(before),
                1 <= start_pos <= end_pos <= UI_MAX_WIDTH - 2,
                found ==> row < n && row_is_free(before[row as int], start_pos as int, end_pos as int),
                forall|r: int|
                    0 <= r < row ==> !row_is_free(#[trigger] before[r], start_pos as int, end_pos as int),
            decreases n - row + (if found { 0int } else { 1int }),
        {
            assert(self.canvas@[row as int]@ == before[row as int]);
            if can_put_in_row(&self.canvas[row], start_pos, end_pos) {
                found = true;
            } else {
                row += 1;
            }
        }
        proof {
            first_fit_found(before, 0, row as int, start_pos as int, end_pos as int);
        }
        if row == n {
            let _ = self.new_row();
        }
        let ghost base = self.grid();
        self.put_in_row(row, start_pos, end_pos, pixel);
        let ghost mid = self.grid();
        let ghost mid_rows = self.canvas@;
        assert(mid.len() == base.len());
        assert(mid_rows[row as int]@ == mid[row as int]);
        self.canvas[row][start_pos - 1] = Pixel::new(index, pixel.color);
        assert forall|r: int| 0 <= r < mid.len() && r != row implies #[trigger] self.grid()[r]
            == base[r] by {
            assert(mid_rows[r]@ == mid[r]);
        }
    }

    fn new_row(&mut self) -> (row: usize)
        requires
            full_width(old(self).grid()),
        ensures
            final(self).same_subject(*old(self)),
            final(self).grid() == old(self).grid().push(blank_row()),
            full_width(final(self).grid()),
            row == old(self).grid().len(),
    {
        let mut cells: Vec<Pixel> = Vec::new();
        let mut c: usize = 0;
        while c < UI_MAX_WIDTH
            invariant
                c <= UI_MAX_WIDTH,
                cells@.len() == c,
                forall|k: int| 0 <= k < c ==> cells@[k] == blank_pixel(),
            decreases UI_MAX_WIDTH - c,
        {
            cells.push(Pixel::default());
            c += 1;
        }
        assert(cells@ =~= blank_row());
        self.canvas.push(cells);
        self.canvas.len() - 1
    }

    fn put_in_row(&mut self, row: usize, start_pos: usize, end_pos: usize, pixel: Pixel)
        requires
            full_width(old(self).grid()),
            row < old(self).grid().len(),
            start_pos <= end_pos < UI_MAX_WIDTH,
        ensures
            final(self).same_subject(*old(self)),
            final(self).grid() == old(self).grid().update(
                row as int,
                filled_row(old(self).grid()[row as int], start_pos as int, end_pos as int, pixel),
            ),
            full_width(final(self).grid()),
    {
        let ghost before = self.grid();
        let mut c: usize = start_pos;
        while c <= end_pos
            invariant
                start_pos <= c <= end_pos + 1,
                end_pos < UI_MAX_WIDTH,
                row < self.canvas@.len(),
                self.same_subject(*old(self)),
                self.canvas@.len() == before.len(),
                full_width(before),
                forall|r: int| 0 <= r < before.len() && r != row ==> (#[trigger] self.canvas@[r])@ == before[r],
                self.canvas@[row as int]@.len() == before[row as int].len(),
                forall|k: int|
                    0 <= k < before[row as int].len() ==> (#[trigger] self.canvas@[row as int]@[k]) == (if start_pos
                        <= k < c {
                        pixel
                    } else {
                        before[row as int][k]
                    }),
            decreases end_pos + 1 - c,
        {
            self.canvas[row][c] = pixel;
            c += 1;
        }
        assert(self.canvas@[row as int]@ =~= filled_row(
            before[row as int],
            start_pos as int,
            end_pos as int,
            pixel,
        ));
        assert(self.grid() =~= before.update(
            row as int,
            filled_row(before[row as int], start_pos as int, end_pos as int, pixel),
        ));
    }
}

/// The cells that show `text`, one per character, without colour.
pub fn row_of_text(text: &str) -> (row: Vec<Pixel>)
    ensures
        row@ == text_row(text@),
{
    let n: usize = text.unicode_len();
    let mut row: Vec<Pixel> = Vec::new();
    let mut c: usize = 0;
    while c < n
        invariant
            c <= n,
            n == text@.len(),
            row@.len() == c,
            forall|k: int| 0 <= k < c ==> (#[trigger] row@[k]) == plain_pixel(text@[k]),
        decreases n - c,
    {
        row.push(Pixel::new(text.get_char(c), None));
        c += 1;
    }
    row
}

/// 08:00 local time is column 0.
pub proof fn eight_o_clock_is_column_zero(t: Moment)
    requires
        t.second_of_day() == 28_800,
    ensures
        column_of(t) == 0,
{
}

/// Ten minutes later on the same local day is one column further right.
pub proof fn ten_minutes_are_one_column(t: Moment, later: Moment)
    requires
        later.local_day() == t.local_day(),
        later.second_of_day() == t.second_of_day() + 600,
    ensures
        column_of(later) == column_of(t) + 1,
{
}

/// First fit picks the topmost row with room: the row it names has room
/// unless it is the row below the last, and no row above it has.
pub proof fn first_fit_is_topmost_free_row(grid: Grid, from: int, start: int, end: int)
    requires
        0 <= from <= grid.len(),
    ensures
        from <= first_fit_from(grid, from, start, end) <= grid.len(),
        first_fit_from(grid, from, start, end) < grid.len() ==> row_is_free(
            grid[first_fit_from(grid, from, start, end)],
            start,
            end,
        ),
        forall|r: int|
            from <= r < first_fit_from(grid, from, start, end) ==> !row_is_free(
                #[trigger] grid[r],
                start,
                end,
            ),
    decreases grid.len() - from,
{
    if from < grid.len() && !row_is_free(grid[from], start, end) {
        first_fit_is_topmost_free_row(grid, from + 1, start, end);
    }
}

/// Placing an interval never overwrites a cell that already shows something,
/// and never removes a row.
pub proof fn placing_keeps_drawn_cells(
    grid: Grid,
    start: int,
    end: int,
    index: char,
    pixel: Pixel,
    at_row: int,
    at_column: int,
)
    requires
        full_width(grid),
        1 <= start <= end <= UI_MAX_WIDTH - 2,
        0 <= at_row < grid.len(),
        0 <= at_column < grid[at_row].len(),
        !grid[at_row][at_column].blank(),
    ensures
        at_row < placed(grid, start, end, index, pixel).len(),
        placed(grid, start, end, index, pixel)[at_row].len() == grid[at_row].len(),
        placed(grid, start, end, index, pixel)[at_row][at_column] == grid[at_row][at_column],
{
    first_fit_is_topmost_free_row(grid, 0, start, end);
}

/// An interval for which no row has room opens a new row at the bottom.
pub proof fn blocked_interval_opens_a_row(grid: Grid, start: int, end: int, index: char, pixel: Pixel)
    requires
        forall|r: int| 0 <= r < grid.len() ==> !row_is_free(#[trigger] grid[r], start, end),
    ensures
        first_fit_from(grid, 0, start, end) == grid.len(),
        placed(grid, start, end, index, pixel).len() == grid.len() + 1,
        placed(grid, start, end, index, pixel)[grid.len() as int] == painted_row(
            blank_row(),
            start,
            end,
            index,
            pixel,
        ),
{
    first_fit_found(grid, 0, grid.len() as int, start, end);
}

/// On an empty chart, a second interval goes into the row of the first one
/// exactly when the two keep clear of each other, the letter in front of
/// each counted in; otherwise it goes into a second row.
pub proof fn second_interval_shares_row_iff_clear(
    first: (int, int),
    second: (int, int),
    first_index: char,
    first_pixel: Pixel,
    second_index: char,
    second_pixel: Pixel,
)
    requires
        1 <= first.0 <= first.1 <= UI_MAX_WIDTH - 2,
        1 <= second.0 <= second.1 <= UI_MAX_WIDTH - 2,
        !first_pixel.blank(),
        first_index != ' ',
    ensures
        ({
            let one = placed(Seq::empty(), first.0, first.1, first_index, first_pixel);
            let two = placed(one, second.0, second.1, second_index, second_pixel);
            let clear = first.1 < second.0 - 1 || second.1 < first.0 - 1;
            &&& one.len() == 1
            &&& clear ==> first_fit_from(one, 0, second.0, second.1) == 0 && two.len() == 1
            &&& !clear ==> first_fit_from(one, 0, second.0, second.1) == 1 && two.len() == 2
        }),
{
    let empty = Seq::<Seq<Pixel>>::empty();
    let one = placed(empty, first.0, first.1, first_index, first_pixel);
    first_fit_found(empty, 0, 0, first.0, first.1);
    let row = painted_row(blank_row(), first.0, first.1, first_index, first_pixel);
    let clear = first.1 < second.0 - 1 || second.1 < first.0 - 1;
    if clear {
        first_fit_found(one, 0, 0, second.0, second.1);
    } else {
        let c = if second.0 - 1 <= first.0 - 1 {
            first.0 - 1
        } else {
            second.0 - 1
        };
        assert(!row[c].blank());
        first_fit_found(one, 0, 1, second.0, second.1);
    }
}

} // verus!
