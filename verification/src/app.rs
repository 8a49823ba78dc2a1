//! The application state and the dispatcher that owns it. Every change of
//! the state is one call of a function of this module: an input message, or
//! the frame that a redraw computes.

use crate::cpu::{
    barchart_view, create_cpu_barchart, CpuBarchart, CpuBarchartView, CpuInfo, BAR_GAP, BAR_WIDTH,
};
use crate::disk::{
    all_consistent, are_consistent, create_disks_widget, disk_views, DiskInfo, DisksWidget,
    DisksWidgetView,
};
use crate::focus::SelectedTab;
use crate::input::{InputMessage, KeyCode, MouseScrollDirection};
use crate::layout::{is_within_rect, prepare_layout, AppLayout, PanelRect};
use crate::network::{
    network_views, total_stats, totals_of, widget_with_totals, NetworkInfo, NetworksWidget,
    NetworksWidgetView,
};
use crate::processes::{
    create_processes_table, display_order_of, process_views, table_view, toggle_sort, toggled,
    ProcessColumn, ProcessInfo, ProcessesTable, ProcessesTableView, SortDirection,
};
use crate::viewport::{Orientation, ViewportState, ViewportView};
use vstd::prelude::*;

verus! {

/// Whether the application runs or is about to end.
#[derive(Clone, Copy, Debug, PartialEq, Eq, Structural)]
pub enum AppState {
    Running,
    Exiting,
}

impl Default for AppState {
    fn default() -> (state: AppState)
        ensures
            state == AppState::Running,
    {
        AppState::Running
    }
}

/// The state of the application.
pub struct App {
    state: AppState,
    layout_clone: AppLayout,
    selected_tab: SelectedTab,
    cpu_scrollbar_state: ViewportState,
    processes_scrollbar_state: ViewportState,
    process_sort_state: Option<(ProcessColumn, SortDirection)>,
    disks_scrollbar_state: ViewportState,
    networks_scrollbar_state: ViewportState,
}

/// The state of the application as mathematics sees it.
pub struct AppView {
    pub state: AppState,
    /// The rectangles of the last frame, against which the pointer is
    /// tested.
    pub layout: AppLayout,
    pub selected_tab: SelectedTab,
    pub cpu: ViewportView,
    pub processes: ViewportView,
    pub sort_state: Option<(ProcessColumn, SortDirection)>,
    pub disks: ViewportView,
    pub networks: ViewportView,
}

/// The panel under the pointer: the first of CPU, processes, disks and
/// networks whose rectangle holds the cell, or none.
pub open spec fn hovered_tab(layout: AppLayout, position: (u16, u16)) -> SelectedTab {
    let x = position.0 as int;
    let y = position.1 as int;
    if layout.main_layout.cpu_plus_memory_layout.cpu_layout.contains(x, y) {
        SelectedTab::Cpu
    } else if layout.main_layout.processes_layout.contains(x, y) {
        SelectedTab::Processes
    } else if layout.main_layout.disk_layout.contains(x, y) {
        SelectedTab::Disks
    } else if layout.main_layout.network_layout.contains(x, y) {
        SelectedTab::Networks
    } else {
        SelectedTab::Unfocused
    }
}

/// The column that a digit key stands for.
pub open spec fn column_of_digit(digit: char) -> Option<ProcessColumn> {
    if digit == '1' {
        Some(ProcessColumn::User)
    } else if digit == '2' {
        Some(ProcessColumn::PID)
    } else if digit == '3' {
        Some(ProcessColumn::PPID)
    } else if digit == '4' {
        Some(ProcessColumn::CPU)
    } else if digit == '5' {
        Some(ProcessColumn::Memory)
    } else if digit == '6' {
        Some(ProcessColumn::Time)
    } else if digit == '7' {
        Some(ProcessColumn::Command)
    } else {
        None
    }
}

impl AppView {
    /// The state at the start: running, no panel focused, nothing scrolled,
    /// the table in its own order. The layout is that of no frame.
    pub open spec fn is_initial(self) -> bool {
        &&& self.state == AppState::Running
        &&& self.selected_tab == SelectedTab::Unfocused
        &&& self.sort_state == None::<(ProcessColumn, SortDirection)>
        &&& self.layout == AppLayout::none()
        &&& self.cpu == ViewportView::fresh(Orientation::Horizontal)
        &&& self.processes == ViewportView::fresh(Orientation::Vertical)
        &&& self.disks == ViewportView::fresh(Orientation::Vertical)
        &&& self.networks == ViewportView::fresh(Orientation::Vertical)
    }

    /// Scrolling right moves the CPU panel forward, if it has the focus.
    pub open spec fn scrolled_right(self) -> AppView {
        if self.selected_tab == SelectedTab::Cpu {
            AppView { cpu: self.cpu.scrolled_next(), ..self }
        } else {
            self
        }
    }

    /// Scrolling left moves the CPU panel backward, if it has the focus.
    pub open spec fn scrolled_left(self) -> AppView {
        if self.selected_tab == SelectedTab::Cpu {
            AppView { cpu: self.cpu.scrolled_prev(), ..self }
        } else {
            self
        }
    }

    /// Scrolling down moves the focused one of the panels of lines forward.
    pub open spec fn scrolled_down(self) -> AppView {
        match self.selected_tab {
            SelectedTab::Processes => AppView { processes: self.processes.scrolled_next(), ..self },
            SelectedTab::Disks => AppView { disks: self.disks.scrolled_next(), ..self },
            SelectedTab::Networks => AppView { networks: self.networks.scrolled_next(), ..self },
            _ => self,
        }
    }

    /// Scrolling up moves the focused one of the panels of lines backward.
    pub open spec fn scrolled_up(self) -> AppView {
        match self.selected_tab {
            SelectedTab::Processes => AppView { processes: self.processes.scrolled_prev(), ..self },
            SelectedTab::Disks => AppView { disks: self.disks.scrolled_prev(), ..self },
            SelectedTab::Networks => AppView { networks: self.networks.scrolled_prev(), ..self },
            _ => self,
        }
    }

    /// The state after a key. `l` and `h` and the arrows beside them scroll
    /// the CPU panel, `j` and `k` and the arrows beside them the panels of
    /// lines; `Tab` and `BackTab` move the focus; while the process panel has
    /// the focus the digits `1` to `7` ask for a column and `r` returns the
    /// table to its own order. Every other key changes nothing.
    pub open spec fn after_key(self, code: KeyCode) -> AppView {
        match code {
            KeyCode::Right => self.scrolled_right(),
            KeyCode::Left => self.scrolled_left(),
            KeyCode::Down => self.scrolled_down(),
            KeyCode::Up => self.scrolled_up(),
            KeyCode::Tab => AppView { selected_tab: self.selected_tab.successor(), ..self },
            KeyCode::BackTab => AppView { selected_tab: self.selected_tab.predecessor(), ..self },
            KeyCode::Char(c) => {
                if c == 'l' {
                    self.scrolled_right()
                } else if c == 'h' {
                    self.scrolled_left()
                } else if c == 'j' {
                    self.scrolled_down()
                } else if c == 'k' {
                    self.scrolled_up()
                } else if self.selected_tab != SelectedTab::Processes {
                    self
                } else if c == 'r' {
                    AppView { sort_state: None, ..self }
                } else {
                    match column_of_digit(c) {
                        Some(column) => AppView {
                            sort_state: toggled(self.sort_state, column),
                            ..self
                        },
                        None => self,
                    }
                }
            },
            _ => self,
        }
    }

    /// The state after an input message.
    pub open spec fn after_message(self, message: InputMessage) -> AppView {
        match message {
            InputMessage::KeyPress(code) => self.after_key(code),
            InputMessage::MouseScroll { direction } => match direction {
                MouseScrollDirection::Up => self.scrolled_up(),
                MouseScrollDirection::Down => self.scrolled_down(),
                MouseScrollDirection::Left => self.scrolled_left(),
                MouseScrollDirection::Right => self.scrolled_right(),
            },
            InputMessage::MouseMoved { position } => AppView {
                selected_tab: hovered_tab(self.layout, position),
                ..self
            },
            InputMessage::Quit => AppView { state: AppState::Exiting, ..self },
        }
    }
}

impl View for App {
    type V = AppView;

    closed spec fn view(&self) -> AppView {
        AppView {
            state: self.state,
            layout: self.layout_clone,
            selected_tab: self.selected_tab,
            cpu: self.cpu_scrollbar_state@,
            processes: self.processes_scrollbar_state@,
            sort_state: self.process_sort_state,
            disks: self.disks_scrollbar_state@,
            networks: self.networks_scrollbar_state@,
        }
    }
}

impl App {
    /// The application at its start.
    pub fn new() -> (app: App)
        ensures
            app@.is_initial(),
    {
        App {
            state: AppState::Running,
            layout_clone: AppLayout::empty(),
            selected_tab: SelectedTab::Unfocused,
            cpu_scrollbar_state: ViewportState::new(Orientation::Horizontal),
            processes_scrollbar_state: ViewportState::new(Orientation::Vertical),
            process_sort_state: None,
            disks_scrollbar_state: ViewportState::new(Orientation::Vertical),
            networks_scrollbar_state: ViewportState::new(Orientation::Vertical),
        }
    }

    pub fn state(&self) -> (state: AppState)
        ensures
            state == self@.state,
    {
        self.state
    }

    pub fn is_running(&self) -> (yes: bool)
        ensures
            yes == (self@.state == AppState::Running),
    {
        self.state == AppState::Running
    }

    pub fn layout(&self) -> (layout: AppLayout)
        ensures
            layout == self@.layout,
    {
        self.layout_clone
    }

    pub fn selected_tab(&self) -> (tab: SelectedTab)
        ensures
            tab == self@.selected_tab,
    {
        self.selected_tab
    }

    pub fn process_sort_state(&self) -> (sort_state: Option<(ProcessColumn, SortDirection)>)
        ensures
            sort_state == self@.sort_state,
    {
        self.process_sort_state
    }

    pub fn cpu_scrollbar_state(&self) -> (viewport: ViewportState)
        ensures
            viewport@ == self@.cpu,
    {
        self.cpu_scrollbar_state
    }

    pub fn processes_scrollbar_state(&self) -> (viewport: ViewportState)
        ensures
            viewport@ == self@.processes,
    {
        self.processes_scrollbar_state
    }

    pub fn disks_scrollbar_state(&self) -> (viewport: ViewportState)
        ensures
            viewport@ == self@.disks,
    {
        self.disks_scrollbar_state
    }

    pub fn networks_scrollbar_state(&self) -> (viewport: ViewportState)
        ensures
            viewport@ == self@.networks,
    {
        self.networks_scrollbar_state
    }

    /// Acts on one input message.
    pub fn handle_events(&mut self, message: &InputMessage)
        ensures
            final(self)@ == old(self)@.after_message(*message),
    {
        match message {
            InputMessage::KeyPress(code) => match code {
                KeyCode::Char('l') | KeyCode::Right => self.scroll_right(),
                KeyCode::Char('h') | KeyCode::Left => self.scroll_left(),
                KeyCode::Char('j') | KeyCode::Down => self.scroll_down(),
                KeyCode::Char('k') | KeyCode::Up => self.scroll_up(),
                KeyCode::Tab => self.next_tab(),
                KeyCode::BackTab => self.prev_tab(),
                KeyCode::Char(c) => {
                    if self.selected_tab.is_processes() {
                        if *c == 'r' {
                            self.reset_sort();
                        } else {
                            match digit_column(*c) {
                                Some(column) => self.toggle_sort_column(column),
                                None => {},
                            }
                        }
                    }
                },
                _ => {},
            },
            InputMessage::MouseScroll { direction } => match direction {
                MouseScrollDirection::Up => self.scroll_up(),
                MouseScrollDirection::Down => self.scroll_down(),
                MouseScrollDirection::Left => self.scroll_left(),
                MouseScrollDirection::Right => self.scroll_right(),
            },
            InputMessage::MouseMoved { position } => self.handle_mouse_moved(*position),
            InputMessage::Quit => self.quit(),
        }
    }

    /// Asks for a column of the process table.
    pub fn toggle_sort_column(&mut self, column: ProcessColumn)
        ensures
            final(self)@ == (AppView {
                sort_state: toggled(old(self)@.sort_state, column),
                ..old(self)@
            }),
    {
        self.process_sort_state = toggle_sort(self.process_sort_state, column);
    }

    /// Returns the process table to its own order.
    pub fn reset_sort(&mut self)
        ensures
            final(self)@ == (AppView { sort_state: None, ..old(self)@ }),
    {
        self.process_sort_state = None;
    }

    /// Gives the focus to the panel under the pointer.
    pub fn handle_mouse_moved(&mut self, position: (u16, u16))
        ensures
            final(self)@ == (AppView {
                selected_tab: hovered_tab(old(self)@.layout, position),
                ..old(self)@
            }),
    {
        self.selected_tab = tab_at(&self.layout_clone, position);
    }

    pub fn scroll_right(&mut self)
        ensures
            final(self)@ == old(self)@.scrolled_right(),
    {
        if self.selected_tab.is_cpu() {
            self.cpu_scrollbar_state.scroll_next();
        }
    }

    pub fn scroll_left(&mut self)
        ensures
            final(self)@ == old(self)@.scrolled_left(),
    {
        if self.selected_tab.is_cpu() {
            self.cpu_scrollbar_state.scroll_prev();
        }
    }

    pub fn scroll_down(&mut self)
        ensures
            final(self)@ == old(self)@.scrolled_down(),
    {
        if self.selected_tab.is_processes() {
            self.processes_scrollbar_state.scroll_next();
            return ;
        }
        if self.selected_tab.is_disks() {
            self.disks_scrollbar_state.scroll_next();
            return ;
        }
        if self.selected_tab.is_network() {
            self.networks_scrollbar_state.scroll_next();
            return ;
        }
    }

    pub fn scroll_up(&mut self)
        ensures
            final(self)@ == old(self)@.scrolled_up(),
    {
        if self.selected_tab.is_processes() {
            self.processes_scrollbar_state.scroll_prev();
            return ;
        }
        if self.selected_tab.is_disks() {
            self.disks_scrollbar_state.scroll_prev();
            return ;
        }
        if self.selected_tab.is_network() {
            self.networks_scrollbar_state.scroll_prev();
            return ;
        }
    }

    pub fn next_tab(&mut self)
        ensures
            final(self)@ == (AppView {
                selected_tab: old(self)@.selected_tab.successor(),
                ..old(self)@
            }),
    {
        self.selected_tab = self.selected_tab.next();
    }

    pub fn prev_tab(&mut self)
        ensures
            final(self)@ == (AppView {
                selected_tab: old(self)@.selected_tab.predecessor(),
                ..old(self)@
            }),
    {
        self.selected_tab = self.selected_tab.prev();
    }

    pub fn quit(&mut self)
        ensures
            final(self)@ == (AppView { state: AppState::Exiting, ..old(self)@ }),
    {
        self.state = AppState::Exiting;
    }
}

/// Finds the panel under the pointer.
pub fn tab_at(layout: &AppLayout, position: (u16, u16)) -> (tab: SelectedTab)
    ensures
        tab == hovered_tab(*layout, position),
{
    let main = &layout.main_layout;
    if is_within_rect(position, &main.cpu_plus_memory_layout.cpu_layout) {
        SelectedTab::Cpu
    } else if is_within_rect(position, &main.processes_layout) {
        SelectedTab::Processes
    } else if is_within_rect(position, &main.disk_layout) {
        SelectedTab::Disks
    } else if is_within_rect(position, &main.network_layout) {
        SelectedTab::Networks
    } else {
        SelectedTab::Unfocused
    }
}

/// Finds the column that a digit key stands for.
pub fn digit_column(digit: char) -> (column: Option<ProcessColumn>)
    ensures
        column == column_of_digit(digit),
{
    match digit {
        '1' => Some(ProcessColumn::User),
        '2' => Some(ProcessColumn::PID),
        '3' => Some(ProcessColumn::PPID),
        '4' => Some(ProcessColumn::CPU),
        '5' => Some(ProcessColumn::Memory),
        '6' => Some(ProcessColumn::Time),
        '7' => Some(ProcessColumn::Command),
        _ => None,
    }
}

/// The machine as one frame shows it.
#[derive(Clone, Debug, PartialEq, Eq)]
pub struct Snapshot {
    pub cpus: CpuInfo,
    pub processes: Vec<ProcessInfo>,
    pub disks: Vec<DiskInfo>,
    pub networks: Vec<NetworkInfo>,
}

/// What one frame shows. A panel is missing where its numbers are beyond
/// what the machine can count, or contradict each other.
#[derive(Clone, Debug, PartialEq, Eq)]
pub struct Frame {
    pub layout: AppLayout,
    pub cpu: Option<CpuBarchart>,
    pub processes: ProcessesTable,
    pub disks: Option<DisksWidget>,
    pub networks: Option<NetworksWidget>,
    pub footer: String,
}

/// The footer while the process panel has the focus.
pub open spec fn footer_with_sort_keys() -> Seq<char> {
    "1-7: Sort columns | r: Reset sort | Tab: Next tab | h/j/k/l: Scroll | q: Quit"@
}

/// The footer otherwise.
pub open spec fn footer_without_sort_keys() -> Seq<char> {
    "Tab: Next tab | h/j/k/l: Scroll | q: Quit"@
}

impl AppView {
    /// Whether the CPU panel can be built: the width of all bars must be a
    /// number that the machine can count to.
    pub open spec fn shows_cpus(cpus: CpuInfo) -> bool {
        cpus.usages@.len() * (BAR_WIDTH + BAR_GAP) <= usize::MAX
    }

    /// The CPU panel of a frame that gives it the rectangle `rect`.
    pub open spec fn cpu_panel(self, cpus: CpuInfo, rect: PanelRect) -> CpuBarchartView {
        barchart_view(
            cpus.usages@,
            cpus.total_usage@,
            cpus.frequency as nat,
            rect.width as nat,
            self.cpu.position,
            self.selected_tab == SelectedTab::Cpu,
        )
    }

    /// The state after the CPU panel was built: its viewport has the bounds
    /// of the panel.
    pub open spec fn after_cpu_panel(self, cpus: CpuInfo, rect: PanelRect) -> AppView {
        if AppView::shows_cpus(cpus) {
            let panel = self.cpu_panel(cpus, rect);
            AppView { cpu: self.cpu.resized(panel.max_scroll, panel.real_content_length), ..self }
        } else {
            self
        }
    }

    /// The process panel of a frame that gives it the rectangle `rect`.
    pub open spec fn processes_panel(
        self,
        processes: Seq<ProcessInfo>,
        rect: PanelRect,
    ) -> ProcessesTableView {
        table_view(
            process_views(processes),
            display_order_of(process_views(processes), self.sort_state),
            rect.height as nat,
            self.processes.position,
            self.selected_tab == SelectedTab::Processes,
            self.sort_state,
        )
    }

    /// The state after the process panel was built: its viewport has the
    /// bounds of the panel, and the scrollbar is as long as the panel can be
    /// scrolled.
    pub open spec fn after_processes_panel(
        self,
        processes: Seq<ProcessInfo>,
        rect: PanelRect,
    ) -> AppView {
        let panel = self.processes_panel(processes, rect);
        AppView { processes: self.processes.resized(panel.max_scroll, panel.max_scroll), ..self }
    }

    /// Whether the disk panel can be built: no disk may have more free
    /// space than space.
    pub open spec fn shows_disks(disks: Seq<DiskInfo>) -> bool {
        all_consistent(disk_views(disks))
    }

    /// The disk panel of a frame that gives it the rectangle `rect`.
    pub open spec fn disks_panel(self, disks: Seq<DiskInfo>, rect: PanelRect) -> DisksWidgetView {
        crate::disk::widget_view(
            disk_views(disks),
            rect.height as nat,
            self.disks.position,
            self.selected_tab == SelectedTab::Disks,
        )
    }

    /// The state after the disk panel was built.
    pub open spec fn after_disks_panel(self, disks: Seq<DiskInfo>, rect: PanelRect) -> AppView {
        if AppView::shows_disks(disks) {
            let panel = self.disks_panel(disks, rect);
            AppView { disks: self.disks.resized(panel.max_scroll, panel.max_scroll), ..self }
        } else {
            self
        }
    }

    /// Whether the network panel can be built: the totals of the traffic
    /// must be numbers that the machine can count to.
    pub open spec fn shows_networks(networks: Seq<NetworkInfo>) -> bool {
        totals_of(network_views(networks)).fits()
    }

    /// The network panel of a frame that gives it the rectangle `rect`.
    pub open spec fn networks_panel(
        self,
        networks: Seq<NetworkInfo>,
        rect: PanelRect,
    ) -> NetworksWidgetView {
        crate::network::widget_view(
            network_views(networks),
            rect.height as nat,
            self.networks.position,
            self.selected_tab == SelectedTab::Networks,
        )
    }

    /// The state after the network panel was built.
    pub open spec fn after_networks_panel(
        self,
        networks: Seq<NetworkInfo>,
        rect: PanelRect,
    ) -> AppView {
        if AppView::shows_networks(networks) {
            let panel = self.networks_panel(networks, rect);
            AppView { networks: self.networks.resized(panel.max_scroll, panel.max_scroll), ..self }
        } else {
            self
        }
    }

    /// The footer: it names the sort keys while the process panel has the
    /// focus.
    pub open spec fn footer(self) -> Seq<char> {
        if self.selected_tab == SelectedTab::Processes {
            footer_with_sort_keys()
        } else {
            footer_without_sort_keys()
        }
    }

    /// The state after a frame that was laid out as `layout`: the layout is
    /// kept for the pointer, and each viewport has the bounds of its panel.
    pub open spec fn after_frame(self, layout: AppLayout, snapshot: Snapshot) -> AppView {
        AppView { layout, ..self }.after_cpu_panel(
            snapshot.cpus,
            layout.main_layout.cpu_plus_memory_layout.cpu_layout,
        ).after_processes_panel(
            snapshot.processes@,
            layout.main_layout.processes_layout,
        ).after_disks_panel(snapshot.disks@, layout.main_layout.disk_layout).after_networks_panel(
            snapshot.networks@,
            layout.main_layout.network_layout,
        )
    }

    /// Whether `frame` is what a frame shows that was laid out as its layout
    /// says, in this state and for the given snapshot.
    pub open spec fn shows(self, frame: Frame, snapshot: Snapshot) -> bool {
        let main = frame.layout.main_layout;
        &&& frame.footer@ == self.footer()
        &&& frame.cpu is Some <==> AppView::shows_cpus(snapshot.cpus)
        &&& frame.cpu matches Some(panel) ==> panel@ == self.cpu_panel(
            snapshot.cpus,
            main.cpu_plus_memory_layout.cpu_layout,
        )
        &&& frame.processes@ == self.processes_panel(snapshot.processes@, main.processes_layout)
        &&& frame.disks is Some <==> AppView::shows_disks(snapshot.disks@)
        &&& frame.disks matches Some(panel) ==> panel@ == self.disks_panel(
            snapshot.disks@,
            main.disk_layout,
        )
        &&& frame.networks is Some <==> AppView::shows_networks(snapshot.networks@)
        &&& frame.networks matches Some(panel) ==> panel@ == self.networks_panel(
            snapshot.networks@,
            main.network_layout,
        )
    }
}

impl App {
    /// Builds the CPU panel for the rectangle `cpu_layout` and brings the
    /// viewport of the panel up to date.
    pub fn render_cpu(&mut self, cpus: &CpuInfo, cpu_layout: &PanelRect) -> (panel: Option<
        CpuBarchart,
    >)
        ensures
            final(self)@ == old(self)@.after_cpu_panel(*cpus, *cpu_layout),
            panel is Some <==> AppView::shows_cpus(*cpus),
            panel matches Some(barchart) ==> barchart@ == old(self)@.cpu_panel(*cpus, *cpu_layout),
    {
        if cpus.usages.len() > usize::MAX / ((BAR_WIDTH + BAR_GAP) as usize) {
            return None;
        }
        let barchart = create_cpu_barchart(
            cpus,
            cpu_layout.width as usize,
            self.cpu_scrollbar_state.position(),
            self.selected_tab.is_cpu(),
        );
        self.cpu_scrollbar_state.resize(barchart.max_scroll, barchart.real_content_length);
        Some(barchart)
    }

    /// Builds the process panel for the rectangle `processes_layout` and
    /// brings the viewport of the panel up to date.
    pub fn render_processes(
        &mut self,
        processes: &Vec<ProcessInfo>,
        processes_layout: &PanelRect,
    ) -> (table: ProcessesTable)
        ensures
            final(self)@ == old(self)@.after_processes_panel(processes@, *processes_layout),
            table@ == old(self)@.processes_panel(processes@, *processes_layout),
    {
        let table = create_processes_table(
            processes,
            processes_layout.height as usize,
            self.processes_scrollbar_state.position(),
            self.selected_tab.is_processes(),
            self.process_sort_state,
        );
        self.processes_scrollbar_state.resize(table.max_scroll, table.max_scroll);
        table
    }

    /// Builds the disk panel for the rectangle `disks_layout` and brings the
    /// viewport of the panel up to date.
    pub fn render_disks(&mut self, disks: &Vec<DiskInfo>, disks_layout: &PanelRect) -> (panel:
        Option<DisksWidget>)
        ensures
            final(self)@ == old(self)@.after_disks_panel(disks@, *disks_layout),
            panel is Some <==> AppView::shows_disks(disks@),
            panel matches Some(widget) ==> widget@ == old(self)@.disks_panel(disks@, *disks_layout),
    {
        if !are_consistent(disks) {
            return None;
        }
        let widget = create_disks_widget(
            disks,
            disks_layout.height as usize,
            self.disks_scrollbar_state.position(),
            self.selected_tab.is_disks(),
        );
        self.disks_scrollbar_state.resize(widget.max_scroll, widget.max_scroll);
        Some(widget)
    }

    /// Builds the network panel for the rectangle `network_layout` and
    /// brings the viewport of the panel up to date.
    pub fn render_networks(
        &mut self,
        networks: &Vec<NetworkInfo>,
        network_layout: &PanelRect,
    ) -> (panel: Option<NetworksWidget>)
        ensures
            final(self)@ == old(self)@.after_networks_panel(networks@, *network_layout),
            panel is Some <==> AppView::shows_networks(networks@),
            panel matches Some(widget) ==> widget@ == old(self)@.networks_panel(
                networks@,
                *network_layout,
            ),
    {
        match total_stats(networks) {
            Some(totals) => {
                let widget = widget_with_totals(
                    networks,
                    &totals,
                    network_layout.height as usize,
                    self.networks_scrollbar_state.position(),
                    self.selected_tab.is_network(),
                );
                self.networks_scrollbar_state.resize(widget.max_scroll, widget.max_scroll);
                Some(widget)
            },
            None => None,
        }
    }

    /// The text of the footer.
    pub fn render_footer(&self) -> (text: &'static str)
        ensures
            text@ == self@.footer(),
    {
        if self.selected_tab.is_processes() {
            "1-7: Sort columns | r: Reset sort | Tab: Next tab | h/j/k/l: Scroll | q: Quit"
        } else {
            "Tab: Next tab | h/j/k/l: Scroll | q: Quit"
        }
    }

    /// Computes one frame for a terminal of the area `area`: lays out the
    /// panels, keeps the layout for the pointer, builds each panel from the
    /// snapshot, and brings each viewport up to date.
    pub fn draw(&mut self, area: PanelRect, snapshot: &Snapshot) -> (frame: Frame)
        ensures
            frame.layout.lays_out(area),
            final(self)@ == old(self)@.after_frame(frame.layout, *snapshot),
            old(self)@.shows(frame, *snapshot),
    {
        let layout = prepare_layout(area);
        self.layout_clone = layout;
        let main = layout.main_layout;
        let cpu = self.render_cpu(&snapshot.cpus, &main.cpu_plus_memory_layout.cpu_layout);
        let processes = self.render_processes(&snapshot.processes, &main.processes_layout);
        let disks = self.render_disks(&snapshot.disks, &main.disk_layout);
        let networks = self.render_networks(&snapshot.networks, &main.network_layout);
        let footer = String::from_str(self.render_footer());
        Frame { layout, cpu, processes, disks, networks, footer }
    }
}

/// What wakes the dispatcher.
#[derive(Clone, Copy, Debug, PartialEq, Eq)]
pub enum DispatchEvent {
    /// The slow timer: the snapshot is due.
    RefreshTick,
    /// The fast timer: a frame is due.
    RedrawTick,
    /// Input capture sent a message.
    Input(InputMessage),
}

/// What the dispatcher asks of the loop that runs it.
#[derive(Clone, Copy, Debug, PartialEq, Eq, Structural)]
pub enum DispatchAction {
    /// Take a new snapshot of the machine.
    RefreshMetrics,
    /// Compute a frame with `draw` and put it on the screen.
    Draw,
    /// Wait for the next event.
    Continue,
    /// End input capture and leave the loop.
    Shutdown,
}

impl AppView {
    /// The state after one event, and what the loop is asked to do. Once the
    /// application is exiting no event changes the state, and the loop is
    /// asked to end. While it runs, a tick of a timer changes nothing and asks
    /// for the work that is due; a message changes the state as
    /// `after_message` says, and asks the loop to end if it was the one to
    /// quit.
    pub open spec fn dispatched(self, event: DispatchEvent) -> (AppView, DispatchAction) {
        if self.state == AppState::Exiting {
            (self, DispatchAction::Shutdown)
        } else {
            match event {
                DispatchEvent::RefreshTick => (self, DispatchAction::RefreshMetrics),
                DispatchEvent::RedrawTick => (self, DispatchAction::Draw),
                DispatchEvent::Input(message) => (
                    self.after_message(message),
                    if message == InputMessage::Quit {
                        DispatchAction::Shutdown
                    } else {
                        DispatchAction::Continue
                    },
                ),
            }
        }
    }

    /// The state after a sequence of events, taken in order.
    pub open spec fn after_events(self, events: Seq<DispatchEvent>) -> AppView
        decreases events.len(),
    {
        if events.len() == 0 {
            self
        } else {
            self.after_events(events.drop_last()).dispatched(events.last()).0
        }
    }
}

impl App {
    /// Serves one event: exactly one change of the state, or none.
    pub fn dispatch(&mut self, event: &DispatchEvent) -> (action: DispatchAction)
        ensures
            (final(self)@, action) == old(self)@.dispatched(*event),
    {
        if !self.is_running() {
            return DispatchAction::Shutdown;
        }
        match event {
            DispatchEvent::RefreshTick => DispatchAction::RefreshMetrics,
            DispatchEvent::RedrawTick => DispatchAction::Draw,
            DispatchEvent::Input(message) => {
                self.handle_events(message);
                match message {
                    InputMessage::Quit => DispatchAction::Shutdown,
                    _ => DispatchAction::Continue,
                }
            },
        }
    }
}

/// The message to quit ends the application and changes nothing else.
pub proof fn lemma_quit_exits(app: AppView)
    ensures
        app.after_message(InputMessage::Quit) == (AppView { state: AppState::Exiting, ..app }),
        app.state == AppState::Running ==> app.dispatched(
            DispatchEvent::Input(InputMessage::Quit),
        ) == (AppView { state: AppState::Exiting, ..app }, DispatchAction::Shutdown),
{
}

/// Only the message to quit ends the application: after any other message,
/// and after a tick of a timer, an application that ran still runs.
pub proof fn lemma_only_quit_exits(app: AppView, event: DispatchEvent)
    requires
        app.state == AppState::Running,
    ensures
        app.dispatched(event).0.state == AppState::Exiting <==> event == DispatchEvent::Input(
            InputMessage::Quit,
        ),
{
}

/// An application that is exiting stays as it is, whatever events follow.
pub proof fn lemma_exiting_is_final(app: AppView, events: Seq<DispatchEvent>)
    requires
        app.state == AppState::Exiting,
    ensures
        app.after_events(events) == app,
    decreases events.len(),
{
    if events.len() > 0 {
        lemma_exiting_is_final(app, events.drop_last());
    }
}

/// The events before an event and the events from it on lead to the same
/// state taken one after the other as taken together.
proof fn lemma_events_in_two_parts(app: AppView, events: Seq<DispatchEvent>, at: int)
    requires
        0 <= at <= events.len(),
    ensures
        app.after_events(events) == app.after_events(events.take(at)).after_events(
            events.skip(at),
        ),
    decreases events.len() - at,
{
    if at == events.len() {
        assert(events.take(at) =~= events);
        assert(events.skip(at) =~= Seq::<DispatchEvent>::empty());
    } else {
        lemma_events_in_two_parts(app, events.drop_last(), at);
        assert(events.drop_last().take(at) =~= events.take(at));
        assert(events.drop_last().skip(at) =~= events.skip(at).drop_last());
        assert(events.skip(at).last() == events.last());
    }
}

/// Wherever the message to quit stands among the events, the application
/// is exiting from then on, and the events behind it change nothing.
pub proof fn lemma_nothing_changes_after_quit(app: AppView, events: Seq<DispatchEvent>, at: int)
    requires
        0 <= at < events.len(),
        events[at] == DispatchEvent::Input(InputMessage::Quit),
    ensures
        app.after_events(events).state == AppState::Exiting,
        app.after_events(events) == app.after_events(events.take(at + 1)),
{
    let upto = events.take(at + 1);
    assert(upto.last() == events[at]);
    assert(app.after_events(upto).state == AppState::Exiting);
    lemma_events_in_two_parts(app, events, at + 1);
    lemma_exiting_is_final(app.after_events(upto), events.skip(at + 1));
}

} // verus!
