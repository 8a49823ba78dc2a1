//! The process table: by which column it is sorted, in which order the
//! processes then stand, which of them are visible, and what each cell says.

use crate::layout::{get_highlight_style, HighlightStyle};
use crate::order::{
    is_stable_order, lemma_rules_that_agree, lemma_stable_order_is_the_order, stable_order,
    stable_order_of, Precedence,
};
use crate::text::{
    clock, clock_text, decimal, decimal_digits, is_text_before, lemma_bytes_order_is_consistent,
    lemma_rows_push, rows_of_texts, text_before, texts,
};
use crate::viewport::{
    lines_within_border, max_scroll_of, scroll_range, visible_lines_of, window_len, window_of,
    window_start,
};
use vstd::prelude::*;
use vstd::utf8::encode_utf8;

verus! {

/// A column of the process table.
#[derive(Debug, Clone, Copy, PartialEq, Eq, Structural)]
pub enum ProcessColumn {
    User,
    PID,
    PPID,
    CPU,
    Memory,
    Time,
    Command,
}

/// The direction of a sort.
#[derive(Debug, Clone, Copy, PartialEq, Eq, Structural)]
pub enum SortDirection {
    Ascending,
    Descending,
}

/// The sort state after a key asked for `column`: a column that was not
/// sorted by becomes sorted ascending, one that was sorted ascending becomes
/// sorted descending, and one that was sorted descending is no longer sorted
/// by, which leaves the table in its own order.
pub open spec fn toggled(
    current: Option<(ProcessColumn, SortDirection)>,
    column: ProcessColumn,
) -> Option<(ProcessColumn, SortDirection)> {
    match current {
        Some((sorted, SortDirection::Ascending)) if sorted == column => Some(
            (column, SortDirection::Descending),
        ),
        Some((sorted, SortDirection::Descending)) if sorted == column => None,
        _ => Some((column, SortDirection::Ascending)),
    }
}

/// Computes the sort state after a key asked for `column`.
pub fn toggle_sort(
    current: Option<(ProcessColumn, SortDirection)>,
    column: ProcessColumn,
) -> (next: Option<(ProcessColumn, SortDirection)>)
    ensures
        next == toggled(current, column),
{
    match current {
        Some((sorted, direction)) => {
            if sorted == column {
                match direction {
                    SortDirection::Ascending => Some((column, SortDirection::Descending)),
                    SortDirection::Descending => None,
                }
            } else {
                Some((column, SortDirection::Ascending))
            }
        },
        None => Some((column, SortDirection::Ascending)),
    }
}

/// Asking three times for the same column returns to the table's own
/// order, whatever the state was before the first time; after the first time
/// the column is sorted ascending unless it was so before.
pub proof fn lemma_toggle_cycle(
    current: Option<(ProcessColumn, SortDirection)>,
    column: ProcessColumn,
)
    ensures
        toggled(None, column) == Some((column, SortDirection::Ascending)),
        toggled(toggled(None, column), column) == Some((column, SortDirection::Descending)),
        toggled(toggled(toggled(None, column), column), column)
            == None::<(ProcessColumn, SortDirection)>,
        current matches Some((sorted, _)) && sorted != column ==> toggled(current, column) == Some(
            (column, SortDirection::Ascending),
        ),
{
}

/// One process of a snapshot of the machine.
#[derive(Clone, Debug, PartialEq, Eq)]
pub struct ProcessInfo {
    /// The name of the user that owns the process, where it is known.
    pub user: Option<String>,
    pub pid: u32,
    /// The identifier of the parent process, where there is one.
    pub parent: Option<u32>,
    /// A number that grows with the share of the processor that the
    /// process uses.
    pub cpu_rank: u32,
    /// That share as the table shows it.
    pub cpu_text: String,
    /// The memory that the process holds, in bytes.
    pub memory: u64,
    /// For how long the process has run, in seconds.
    pub run_time: u64,
    /// A number that grows with the load that the process puts on the
    /// machine, processor and memory taken together.
    pub load_rank: u64,
    /// The name of the command.
    pub name: String,
}

/// A process as mathematics sees it.
pub struct ProcessView {
    /// The owner's name; `unknown` where it is not known.
    pub user: Seq<char>,
    pub pid: nat,
    pub parent: Option<nat>,
    pub cpu_rank: nat,
    pub cpu_text: Seq<char>,
    pub memory: nat,
    pub run_time: nat,
    pub load_rank: nat,
    pub name: Seq<char>,
}

impl View for ProcessInfo {
    type V = ProcessView;

    open spec fn view(&self) -> ProcessView {
        ProcessView {
            user: match self.user {
                Some(name) => name@,
                None => "unknown"@,
            },
            pid: self.pid as nat,
            parent: match self.parent {
                Some(parent) => Some(parent as nat),
                None => None,
            },
            cpu_rank: self.cpu_rank as nat,
            cpu_text: self.cpu_text@,
            memory: self.memory as nat,
            run_time: self.run_time as nat,
            load_rank: self.load_rank as nat,
            name: self.name@,
        }
    }
}

/// The views of a list of processes.
pub open spec fn process_views(processes: Seq<ProcessInfo>) -> Seq<ProcessView> {
    processes.map_values(|process: ProcessInfo| process@)
}

/// The place of a parent among the parents: a process without a parent
/// comes before every process that has one.
pub open spec fn parent_rank(parent: Option<nat>) -> int {
    match parent {
        Some(parent) => parent as int,
        None => -1,
    }
}

/// Whether `a` comes before `b` when the table is sorted by `column`,
/// ascending. Names are ordered as strings are, numbers by their value, and
/// the column `Time` by the time for which the process has run.
pub open spec fn column_before(a: ProcessView, b: ProcessView, column: ProcessColumn) -> bool {
    match column {
        ProcessColumn::User => text_before(a.user, b.user),
        ProcessColumn::PID => a.pid < b.pid,
        ProcessColumn::PPID => parent_rank(a.parent) < parent_rank(b.parent),
        ProcessColumn::CPU => a.cpu_rank < b.cpu_rank,
        ProcessColumn::Memory => a.memory < b.memory,
        ProcessColumn::Time => a.run_time < b.run_time,
        ProcessColumn::Command => text_before(a.name, b.name),
    }
}

/// Whether `a` must stand before `b` in the table. Sorted by a column,
/// ascending or descending, the column decides; not sorted, the process with
/// the greater load comes first.
pub open spec fn comes_before(
    a: ProcessView,
    b: ProcessView,
    sort_by: Option<(ProcessColumn, SortDirection)>,
) -> bool {
    match sort_by {
        Some((column, SortDirection::Ascending)) => column_before(a, b, column),
        Some((column, SortDirection::Descending)) => column_before(b, a, column),
        None => a.load_rank > b.load_rank,
    }
}

/// The order of the table never puts two processes before each other, and
/// where it puts neither `a` before `b` nor `b` before `c`, it does not put
/// `a` before `c`.
pub proof fn lemma_table_order_is_consistent(
    a: ProcessView,
    b: ProcessView,
    c: ProcessView,
    sort_by: Option<(ProcessColumn, SortDirection)>,
)
    ensures
        !(comes_before(a, b, sort_by) && comes_before(b, a, sort_by)),
        !comes_before(a, b, sort_by) && !comes_before(b, c, sort_by) ==> !comes_before(
            a,
            c,
            sort_by,
        ),
{
    lemma_bytes_order_is_consistent(encode_utf8(a.user), encode_utf8(b.user), encode_utf8(c.user));
    lemma_bytes_order_is_consistent(encode_utf8(c.user), encode_utf8(b.user), encode_utf8(a.user));
    lemma_bytes_order_is_consistent(encode_utf8(a.name), encode_utf8(b.name), encode_utf8(c.name));
    lemma_bytes_order_is_consistent(encode_utf8(c.name), encode_utf8(b.name), encode_utf8(a.name));
}

/// The owner's name as the table shows it.
fn user_name(process: &ProcessInfo) -> (name: &str)
    ensures
        name@ == process@.user,
{
    match &process.user {
        Some(name) => name.as_str(),
        None => "unknown",
    }
}

/// Decides whether `a` comes before `b` in the column, ascending.
pub fn is_column_before(a: &ProcessInfo, b: &ProcessInfo, column: ProcessColumn) -> (yes: bool)
    ensures
        yes == column_before(a@, b@, column),
{
    match column {
        ProcessColumn::User => is_text_before(user_name(a), user_name(b)),
        ProcessColumn::PID => a.pid < b.pid,
        ProcessColumn::PPID => match (a.parent, b.parent) {
            (Some(left), Some(right)) => left < right,
            (None, Some(_)) => true,
            (_, None) => false,
        },
        ProcessColumn::CPU => a.cpu_rank < b.cpu_rank,
        ProcessColumn::Memory => a.memory < b.memory,
        ProcessColumn::Time => a.run_time < b.run_time,
        ProcessColumn::Command => is_text_before(a.name.as_str(), b.name.as_str()),
    }
}

/// Decides whether `a` must stand before `b` in the table.
pub fn is_process_before(
    a: &ProcessInfo,
    b: &ProcessInfo,
    sort_by: Option<(ProcessColumn, SortDirection)>,
) -> (yes: bool)
    ensures
        yes == comes_before(a@, b@, sort_by),
{
    match sort_by {
        Some((column, SortDirection::Ascending)) => is_column_before(a, b, column),
        Some((column, SortDirection::Descending)) => is_column_before(b, a, column),
        None => a.load_rank > b.load_rank,
    }
}

/// The processes of a snapshot together with the sort state of the table.
pub struct ProcessOrder<'a> {
    pub processes: &'a Vec<ProcessInfo>,
    pub sort_by: Option<(ProcessColumn, SortDirection)>,
}

impl<'a> Precedence for ProcessOrder<'a> {
    open spec fn count(&self) -> nat {
        self.processes@.len()
    }

    open spec fn before(&self, i: int, j: int) -> bool {
        comes_before(self.processes@[i]@, self.processes@[j]@, self.sort_by)
    }

    fn len(&self) -> (n: usize) {
        self.processes.len()
    }

    fn is_before(&self, i: usize, j: usize) -> (yes: bool) {
        is_process_before(&self.processes[i], &self.processes[j], self.sort_by)
    }

    proof fn lemma_rule_is_consistent(&self, i: int, j: int, k: int) {
        lemma_table_order_is_consistent(
            self.processes@[i]@,
            self.processes@[j]@,
            self.processes@[k]@,
            self.sort_by,
        );
    }
}

/// The rule of the table for the processes of a snapshot: whether the
/// process with the number `i` must stand before the one with the number `j`.
pub open spec fn table_rule(
    processes: Seq<ProcessView>,
    sort_by: Option<(ProcessColumn, SortDirection)>,
) -> spec_fn(int, int) -> bool {
    |i: int, j: int| comes_before(processes[i], processes[j], sort_by)
}

/// Whether `order` lists the processes as the table shows them: each
/// process once, none behind one that it must stand before, and processes
/// that tie in the order of the snapshot.
pub open spec fn is_display_order(
    order: Seq<usize>,
    processes: Seq<ProcessView>,
    sort_by: Option<(ProcessColumn, SortDirection)>,
) -> bool {
    is_stable_order(order, processes.len(), table_rule(processes, sort_by))
}

/// The order in which the table shows the processes, as their numbers in
/// the snapshot.
pub open spec fn display_order_of(
    processes: Seq<ProcessView>,
    sort_by: Option<(ProcessColumn, SortDirection)>,
) -> Seq<usize> {
    stable_order_of(processes.len(), table_rule(processes, sort_by))
}

/// Orders the processes as the table shows them.
pub fn display_order(
    processes: &Vec<ProcessInfo>,
    sort_by: Option<(ProcessColumn, SortDirection)>,
) -> (order: Vec<usize>)
    ensures
        is_display_order(order@, process_views(processes@), sort_by),
        order@ == display_order_of(process_views(processes@), sort_by),
{
    let items = ProcessOrder { processes, sort_by };
    let order = stable_order(&items);
    proof {
        let views = process_views(processes@);
        lemma_rules_that_agree(
            order@,
            items.count(),
            |i: int, j: int| items.before(i, j),
            table_rule(views, sort_by),
        );
        lemma_stable_order_is_the_order(order@, views.len(), table_rule(views, sort_by));
    }
    order
}

/// The title of a column.
pub open spec fn column_title(column: ProcessColumn) -> Seq<char> {
    match column {
        ProcessColumn::User => "User"@,
        ProcessColumn::PID => "PID"@,
        ProcessColumn::PPID => "PPID"@,
        ProcessColumn::CPU => "CPU%"@,
        ProcessColumn::Memory => "MEM(MB)"@,
        ProcessColumn::Time => "Time"@,
        ProcessColumn::Command => "Command"@,
    }
}

/// The header of a column: its title, followed by an arrow where the table
/// is sorted by it, upward for ascending and downward for descending.
pub open spec fn header_cell(
    column: ProcessColumn,
    sort_by: Option<(ProcessColumn, SortDirection)>,
) -> Seq<char> {
    match sort_by {
        Some((sorted, SortDirection::Ascending)) if sorted == column => column_title(column)
            + "\u{2191}"@,
        Some((sorted, SortDirection::Descending)) if sorted == column => column_title(column)
            + "\u{2193}"@,
        _ => column_title(column),
    }
}

/// The headers of the seven columns.
pub open spec fn header_cells(sort_by: Option<(ProcessColumn, SortDirection)>) -> Seq<Seq<char>> {
    seq![
        header_cell(ProcessColumn::User, sort_by),
        header_cell(ProcessColumn::PID, sort_by),
        header_cell(ProcessColumn::PPID, sort_by),
        header_cell(ProcessColumn::CPU, sort_by),
        header_cell(ProcessColumn::Memory, sort_by),
        header_cell(ProcessColumn::Time, sort_by),
        header_cell(ProcessColumn::Command, sort_by),
    ]
}

/// The seven cells of a process: owner, identifier, parent or a dash,
/// processor share, memory in mebibytes rounded down, running time, command.
pub open spec fn row_cells(process: ProcessView) -> Seq<Seq<char>> {
    seq![
        process.user,
        decimal_digits(process.pid),
        match process.parent {
            Some(parent) => decimal_digits(parent),
            None => "-"@,
        },
        process.cpu_text,
        decimal_digits(process.memory / 1024 / 1024),
        clock_text(process.run_time),
        process.name,
    ]
}

/// What the process panel shows.
#[derive(Clone, Debug, PartialEq, Eq)]
pub struct ProcessesChart {
    pub title: String,
    pub header: Vec<String>,
    pub rows: Vec<Vec<String>>,
    pub highlight: HighlightStyle,
}

/// The process panel of one frame, and how far it can be scrolled.
#[derive(Clone, Debug, PartialEq, Eq)]
pub struct ProcessesTable {
    pub chart: ProcessesChart,
    pub max_scroll: usize,
}

/// The process panel as mathematics sees it.
pub struct ProcessesTableView {
    pub title: Seq<char>,
    pub header: Seq<Seq<char>>,
    pub rows: Seq<Seq<Seq<char>>>,
    pub highlight: HighlightStyle,
    pub max_scroll: nat,
}

impl View for ProcessesTable {
    type V = ProcessesTableView;

    open spec fn view(&self) -> ProcessesTableView {
        ProcessesTableView {
            title: self.chart.title@,
            header: texts(self.chart.header@),
            rows: rows_of_texts(self.chart.rows@),
            highlight: self.chart.highlight,
            max_scroll: self.max_scroll as nat,
        }
    }
}

/// The panel for processes that stand in the order `order`, in a panel of
/// `layout_height` rows of which two are its border, scrolled by
/// `scroll_position` lines: the title counts all processes, the rows are
/// those of the processes in the window, and the panel can be scrolled by as
/// many lines as do not fit.
pub open spec fn table_view(
    processes: Seq<ProcessView>,
    order: Seq<usize>,
    layout_height: nat,
    scroll_position: nat,
    is_selected: bool,
    sort_by: Option<(ProcessColumn, SortDirection)>,
) -> ProcessesTableView {
    let visible = lines_within_border(layout_height);
    let count = processes.len();
    ProcessesTableView {
        title: "Processes ("@ + decimal_digits(count) + ")"@,
        header: header_cells(sort_by),
        rows: Seq::new(
            window_len(count, scroll_position, visible),
            |k: int| row_cells(processes[order[window_start(count, scroll_position) + k] as int]),
        ),
        highlight: HighlightStyle::of(is_selected),
        max_scroll: scroll_range(count, visible),
    }
}

fn column_title_text(column: ProcessColumn) -> (title: &'static str)
    ensures
        title@ == column_title(column),
{
    match column {
        ProcessColumn::User => "User",
        ProcessColumn::PID => "PID",
        ProcessColumn::PPID => "PPID",
        ProcessColumn::CPU => "CPU%",
        ProcessColumn::Memory => "MEM(MB)",
        ProcessColumn::Time => "Time",
        ProcessColumn::Command => "Command",
    }
}

fn header_cell_text(
    column: ProcessColumn,
    sort_by: Option<(ProcessColumn, SortDirection)>,
) -> (cell: String)
    ensures
        cell@ == header_cell(column, sort_by),
{
    let mut cell = String::from_str(column_title_text(column));
    match sort_by {
        Some((sorted, direction)) => {
            if sorted == column {
                match direction {
                    SortDirection::Ascending => cell.append("\u{2191}"),
                    SortDirection::Descending => cell.append("\u{2193}"),
                }
            }
        },
        None => {},
    }
    cell
}

fn header_row(sort_by: Option<(ProcessColumn, SortDirection)>) -> (cells: Vec<String>)
    ensures
        texts(cells@) == header_cells(sort_by),
{
    let mut cells: Vec<String> = Vec::new();
    cells.push(header_cell_text(ProcessColumn::User, sort_by));
    cells.push(header_cell_text(ProcessColumn::PID, sort_by));
    cells.push(header_cell_text(ProcessColumn::PPID, sort_by));
    cells.push(header_cell_text(ProcessColumn::CPU, sort_by));
    cells.push(header_cell_text(ProcessColumn::Memory, sort_by));
    cells.push(header_cell_text(ProcessColumn::Time, sort_by));
    cells.push(header_cell_text(ProcessColumn::Command, sort_by));
    assert(texts(cells@) =~= header_cells(sort_by));
    cells
}

fn row_of(process: &ProcessInfo) -> (cells: Vec<String>)
    ensures
        texts(cells@) == row_cells(process@),
{
    let mut cells: Vec<String> = Vec::new();
    cells.push(String::from_str(user_name(process)));
    cells.push(decimal(process.pid as u64));
    cells.push(
        match process.parent {
            Some(parent) => decimal(parent as u64),
            None => String::from_str("-"),
        },
    );
    cells.push(process.cpu_text.clone());
    cells.push(decimal(process.memory / 1024 / 1024));
    cells.push(clock(process.run_time));
    cells.push(process.name.clone());
    assert(texts(cells@) =~= row_cells(process@));
    cells
}

/// Builds the panel for processes that stand in the order `order`.
pub fn table_in_order(
    processes: &Vec<ProcessInfo>,
    order: &Vec<usize>,
    layout_height: usize,
    scroll_position: usize,
    is_selected: bool,
    sort_by: Option<(ProcessColumn, SortDirection)>,
) -> (table: ProcessesTable)
    requires
        order@.len() == processes@.len(),
        forall|i: int| 0 <= i < order@.len() ==> (#[trigger] order@[i]) < processes@.len(),
    ensures
        table@ == table_view(
            process_views(processes@),
            order@,
            layout_height as nat,
            scroll_position as nat,
            is_selected,
            sort_by,
        ),
{
    let visible_lines = visible_lines_of(layout_height);
    let count = processes.len();
    let (start, len) = window_of(count, scroll_position, visible_lines);
    let ghost views = process_views(processes@);
    let mut rows: Vec<Vec<String>> = Vec::new();
    let mut done: usize = 0;
    while done < len
        invariant
            done <= len,
            start + len <= count,
            count == processes@.len(),
            order@.len() == processes@.len(),
            views == process_views(processes@),
            forall|i: int| 0 <= i < order@.len() ==> (#[trigger] order@[i]) < processes@.len(),
            rows_of_texts(rows@) =~= Seq::new(
                done as nat,
                |k: int| row_cells(views[order@[start + k] as int]),
            ),
        decreases len - done,
    {
        let ghost before = rows@;
        let row = row_of(&processes[order[start + done]]);
        proof {
            lemma_rows_push(before, row);
        }
        rows.push(row);
        done = done + 1;
    }
    let mut title = String::from_str("Processes (");
    title.append(decimal(count as u64).as_str());
    title.append(")");
    let table = ProcessesTable {
        chart: ProcessesChart {
            title,
            header: header_row(sort_by),
            rows,
            highlight: get_highlight_style(is_selected),
        },
        max_scroll: max_scroll_of(count, visible_lines),
    };
    assert(table@.rows =~= table_view(
        views,
        order@,
        layout_height as nat,
        scroll_position as nat,
        is_selected,
        sort_by,
    ).rows);
    table
}

/// Builds the process panel of a frame: the processes are put in the order
/// of the table, and the panel is built for that order.
pub fn create_processes_table(
    processes: &Vec<ProcessInfo>,
    layout_height: usize,
    scroll_position: usize,
    is_selected: bool,
    sort_by: Option<(ProcessColumn, SortDirection)>,
) -> (table: ProcessesTable)
    ensures
        table@ == table_view(
            process_views(processes@),
            display_order_of(process_views(processes@), sort_by),
            layout_height as nat,
            scroll_position as nat,
            is_selected,
            sort_by,
        ),
{
    let order = display_order(processes, sort_by);
    table_in_order(processes, &order, layout_height, scroll_position, is_selected, sort_by)
}

} // verus!
