//! The layout with tabs: a header row above the inner area and a footer row
//! below it, a summary tab that cuts the inner area into bands, and a tab
//! with one bar for each processor.

use crate::cpu::CpuInfo;
use crate::layout::{
    cut, half_shares, inset, percentages, spans, tiles, PanelRect, SplitDirection, SplitRule,
};
use crate::text::{decimal, decimal_digits, pad_with_spaces, padded};
use crate::viewport::{max_scroll_of, scroll_range, window_len, window_of, window_start};
use vstd::prelude::*;

verus! {

/// The height of a bar of the processor tab, in rows.
pub const DETAIL_BAR_WIDTH: u16 = 5;

/// The gap between two bars of the processor tab, in rows.
pub const DETAIL_BAR_GAP: u16 = 1;

/// The rectangles of the summary tab: the bands of the inner area, the two
/// halves of the first band, and the two halves of its second half.
#[derive(Clone, Debug, PartialEq, Eq)]
pub struct SummaryTabLayout {
    pub outer_layout: Vec<PanelRect>,
    pub inner_layout: Vec<PanelRect>,
    pub memory_layout: Vec<PanelRect>,
}

/// The rectangle of the processor tab.
#[derive(Clone, Copy, Debug, PartialEq, Eq, Structural)]
pub struct CpuDetailsTabLayout {
    pub main_layout: PanelRect,
}

/// The rectangles of one frame of the layout with tabs.
#[derive(Clone, Debug, PartialEq, Eq)]
pub struct AppLayout {
    pub header_area: PanelRect,
    pub footer_area: PanelRect,
    pub summary_tab_layout: SummaryTabLayout,
    pub cpu_details_tab_layout: CpuDetailsTabLayout,
}

/// What the five bands of the summary tab ask for, in percent.
pub open spec fn summary_rules() -> Seq<SplitRule> {
    seq![
        SplitRule::Percentage(30),
        SplitRule::Percentage(30),
        SplitRule::Percentage(18),
        SplitRule::Percentage(20),
        SplitRule::Percentage(2),
    ]
}

/// What the rows of a frame with tabs ask for: one row for the header, one
/// for the footer, and what they leave for the inner area.
pub open spec fn tab_rules() -> Seq<SplitRule> {
    seq![SplitRule::Length(1), SplitRule::Min(0), SplitRule::Length(1)]
}

/// The rules of the five bands of the summary tab.
pub fn summary_shares() -> (rules: Vec<SplitRule>)
    ensures
        rules@ == summary_rules(),
{
    let rules = percentages(&[30, 30, 18, 20, 2]);
    assert(rules@ =~= summary_rules());
    rules
}

/// The rules of the rows of a frame with tabs.
pub fn tab_shares() -> (rules: Vec<SplitRule>)
    ensures
        rules@ == tab_rules(),
{
    let mut rules: Vec<SplitRule> = Vec::new();
    rules.push(SplitRule::Length(1));
    rules.push(SplitRule::Min(0));
    rules.push(SplitRule::Length(1));
    assert(rules@ =~= tab_rules());
    rules
}

/// The header of a frame with tabs: the first row of the area on the
/// screen, or no row where the area has none.
pub open spec fn header_row(area: PanelRect) -> PanelRect {
    let rows: int = if area.reach(SplitDirection::Vertical) > area.y { 1 } else { 0 };
    PanelRect { x: area.x, y: area.y, width: area.width, height: rows as u16 }
}

/// The footer of a frame with tabs: the last row of the area on the screen
/// below the header, or no row where the header leaves none.
pub open spec fn footer_row(area: PanelRect) -> PanelRect {
    let bottom = area.reach(SplitDirection::Vertical);
    let rows: int = if bottom > area.y + header_row(area).height { 1 } else { 0 };
    PanelRect { x: area.x, y: (bottom - rows) as u16, width: area.width, height: rows as u16 }
}

/// The inner area of a frame with tabs: what header and footer leave.
pub open spec fn inner_rows(area: PanelRect) -> PanelRect {
    PanelRect {
        x: area.x,
        y: (area.y + header_row(area).height) as u16,
        width: area.width,
        height: (footer_row(area).y - area.y - header_row(area).height) as u16,
    }
}

impl SummaryTabLayout {
    /// Whether this layout lays out `inner_area`: five bands tile it within
    /// a margin of one cell, two halves side by side tile the first band
    /// within the same margin, and two halves one below the other tile the
    /// second of them within the same margin.
    pub open spec fn lays_out(self, inner_area: PanelRect) -> bool {
        &&& self.outer_layout@.len() == 5
        &&& self.inner_layout@.len() == 2
        &&& self.memory_layout@.len() == 2
        &&& tiles(self.outer_layout@, inset(inner_area, 1, 1), SplitDirection::Vertical)
        &&& tiles(
            self.inner_layout@,
            inset(self.outer_layout@[0], 1, 1),
            SplitDirection::Horizontal,
        )
        &&& tiles(self.memory_layout@, inset(self.inner_layout@[1], 1, 1), SplitDirection::Vertical)
    }
}

impl AppLayout {
    /// Whether this layout lays out the terminal area `area`: the header is
    /// its first row, the footer its last, the processor tab has what they
    /// leave, and the summary tab lays out the same.
    pub open spec fn lays_out(self, area: PanelRect) -> bool {
        &&& self.header_area == header_row(area)
        &&& self.footer_area == footer_row(area)
        &&& self.cpu_details_tab_layout.main_layout == inner_rows(area)
        &&& self.summary_tab_layout.lays_out(inner_rows(area))
    }
}

/// Lays out the summary tab: five bands of 30, 30, 18, 20 and 2 percent
/// within a margin of one cell, the first band halved, its second half
/// halved again.
pub fn prepare_summary_tab_layout(inner_area: PanelRect) -> (layout: SummaryTabLayout)
    ensures
        layout.lays_out(inner_area),
{
    let outer_layout = cut(SplitDirection::Vertical, 1, 1, &summary_shares(), inner_area);
    let inner_layout = cut(SplitDirection::Horizontal, 1, 1, &half_shares(), outer_layout[0]);
    let memory_layout = cut(SplitDirection::Vertical, 1, 1, &half_shares(), inner_layout[1]);
    SummaryTabLayout { outer_layout, inner_layout, memory_layout }
}

/// The three rows of a frame with tabs, from the three parts that the area
/// was cut into: the parts as they are where the first is the first row of
/// the area and the last its last row, and else those two rows and what they
/// leave.
pub fn tab_rows(rows: &Vec<PanelRect>, area: PanelRect) -> (parts: (PanelRect, PanelRect, PanelRect))
    requires
        rows@.len() == 3,
        tiles(rows@, area, SplitDirection::Vertical),
    ensures
        parts.0 == header_row(area),
        parts.1 == inner_rows(area),
        parts.2 == footer_row(area),
        rows@[0].height == header_row(area).height && rows@[2].height == footer_row(area).height
            ==> parts.0 == rows@[0] && parts.1 == rows@[1] && parts.2 == rows@[2],
{
    let top: u32 = area.y as u32;
    let far: u32 = area.y as u32 + area.height as u32;
    let bottom: u32 = if far > 0xffff {
        0xffff
    } else {
        far
    };
    let header_rows: u32 = if bottom > top {
        1
    } else {
        0
    };
    let footer_rows: u32 = if bottom > top + header_rows {
        1
    } else {
        0
    };
    proof {
        let down = SplitDirection::Vertical;
        assert(spans(rows@[0], area, down) && spans(rows@[1], area, down));
        assert(spans(rows@[2], area, down));
        assert(rows@[1].near(down) == rows@[0].far(down));
        assert(rows@[2].near(down) == rows@[1].far(down));
        assert(rows@.last() == rows@[2]);
    }
    if rows[0].height as u32 == header_rows && rows[2].height as u32 == footer_rows {
        (rows[0], rows[1], rows[2])
    } else {
        (
            PanelRect { x: area.x, y: area.y, width: area.width, height: header_rows as u16 },
            PanelRect {
                x: area.x,
                y: (top + header_rows) as u16,
                width: area.width,
                height: (bottom - footer_rows - top - header_rows) as u16,
            },
            PanelRect {
                x: area.x,
                y: (bottom - footer_rows) as u16,
                width: area.width,
                height: footer_rows as u16,
            },
        )
    }
}

/// Lays out the terminal area: a header row, the inner area, a footer row.
pub fn prepare_layout(area: PanelRect) -> (layout: AppLayout)
    ensures
        layout.lays_out(area),
{
    let rows = cut(SplitDirection::Vertical, 0, 0, &tab_shares(), area);
    assert(inset(area, 0, 0) == area);
    let (header_area, inner_area, footer_area) = tab_rows(&rows, area);
    AppLayout {
        header_area,
        footer_area,
        summary_tab_layout: prepare_summary_tab_layout(inner_area),
        cpu_details_tab_layout: CpuDetailsTabLayout { main_layout: inner_area },
    }
}

/// One bar of the processor tab.
#[derive(Clone, Debug, PartialEq, Eq)]
pub struct CoreBar {
    pub label: String,
    pub text_value: String,
    pub value: u64,
}

/// A bar as mathematics sees it.
pub struct CoreBarView {
    pub label: Seq<char>,
    pub text_value: Seq<char>,
    pub value: nat,
}

impl View for CoreBar {
    type V = CoreBarView;

    open spec fn view(&self) -> CoreBarView {
        CoreBarView { label: self.label@, text_value: self.text_value@, value: self.value as nat }
    }
}

/// What the processor tab shows, and by how many bars it can be scrolled.
#[derive(Clone, Debug, PartialEq, Eq)]
pub struct CpuDetailsTab {
    pub title: String,
    pub bars: Vec<CoreBar>,
    pub content_length: usize,
}

/// The processor tab as mathematics sees it.
pub struct CpuDetailsTabView {
    pub title: Seq<char>,
    pub bars: Seq<CoreBarView>,
    pub content_length: nat,
}

impl View for CpuDetailsTab {
    type V = CpuDetailsTabView;

    open spec fn view(&self) -> CpuDetailsTabView {
        CpuDetailsTabView {
            title: self.title@,
            bars: self.bars@.map_values(|bar: CoreBar| bar@),
            content_length: self.content_length as nat,
        }
    }
}

/// The number of bars that fit one below the other in a tab of the given
/// height, of which two rows are its border.
pub open spec fn visible_cores(height: nat) -> nat {
    (if height >= 2 {
        height - 2
    } else {
        0
    }) as nat / ((DETAIL_BAR_WIDTH + DETAIL_BAR_GAP) as nat)
}

/// The bar of the processor with the number `index`, counted from zero.
pub open spec fn core_bar_view(index: nat, usage: nat) -> CoreBarView {
    CoreBarView {
        label: "Core #"@ + decimal_digits(index + 1),
        text_value: padded(decimal_digits(usage), 3, ' ') + "%"@,
        value: usage,
    }
}

/// The processor tab for the given processors in the given rectangle,
/// scrolled by `scroll_position` bars. It can be scrolled by as many bars as
/// do not fit.
pub open spec fn details_view(
    cpus: CpuInfo,
    layout: CpuDetailsTabLayout,
    scroll_position: nat,
) -> CpuDetailsTabView {
    let count = cpus.usages@.len();
    let visible = visible_cores(layout.main_layout.height as nat);
    CpuDetailsTabView {
        title: "CPU: "@ + cpus.brand@ + ", Frequence: "@ + decimal_digits(cpus.frequency as nat)
            + " MHz"@,
        bars: Seq::new(
            window_len(count, scroll_position, visible),
            |k: int|
                core_bar_view(
                    (window_start(count, scroll_position) + k) as nat,
                    cpus.usages@[window_start(count, scroll_position) + k] as nat,
                ),
        ),
        content_length: scroll_range(count, visible),
    }
}

/// Builds the processor tab.
pub fn render_cpu_details_tab(
    cpus: &CpuInfo,
    cpu_tab_layout: &CpuDetailsTabLayout,
    scroll_position: usize,
) -> (tab: CpuDetailsTab)
    ensures
        tab@ == details_view(*cpus, *cpu_tab_layout, scroll_position as nat),
{
    let height = cpu_tab_layout.main_layout.height;
    let inner: u16 = if height >= 2 {
        height - 2
    } else {
        0
    };
    let visible = (inner / (DETAIL_BAR_WIDTH + DETAIL_BAR_GAP)) as usize;
    let count = cpus.usages.len();
    let (start, len) = window_of(count, scroll_position, visible);
    let mut bars: Vec<CoreBar> = Vec::new();
    let mut done: usize = 0;
    while done < len
        invariant
            done <= len,
            start + len <= count,
            count == cpus.usages@.len(),
            bars@.map_values(|bar: CoreBar| bar@) =~= Seq::new(
                done as nat,
                |k: int| core_bar_view((start + k) as nat, cpus.usages@[start + k] as nat),
            ),
        decreases len - done,
    {
        let ghost before = bars@;
        let usage = cpus.usages[start + done];
        let mut label = String::from_str("Core #");
        label.append(decimal((start + done + 1) as u64).as_str());
        let mut text_value = pad_with_spaces(decimal(usage), 3);
        text_value.append("%");
        let bar = CoreBar { label, text_value, value: usage };
        bars.push(bar);
        assert(bars@.map_values(|bar: CoreBar| bar@) =~= before.map_values(
            |bar: CoreBar| bar@,
        ).push(bar@));
        done = done + 1;
    }
    let mut title = String::from_str("CPU: ");
    title.append(cpus.brand.as_str());
    title.append(", Frequence: ");
    title.append(decimal(cpus.frequency).as_str());
    title.append(" MHz");
    let tab = CpuDetailsTab { title, bars, content_length: max_scroll_of(count, visible) };
    assert(tab@.bars =~= details_view(*cpus, *cpu_tab_layout, scroll_position as nat).bars);
    tab
}

} // verus!
