//! The CPU panel: one bar for each processor, as many side by side as the
//! panel is wide, scrolled from left to right.

use crate::layout::{get_highlight_style, HighlightStyle};
use crate::text::{decimal, decimal_digits, pad_with_spaces, padded};
use crate::viewport::{max_scroll_of, scroll_range, window_len, window_of, window_start};
use vstd::prelude::*;

verus! {

/// The width of a bar, in cells.
pub const BAR_WIDTH: u16 = 7;

/// The gap between two bars, in cells.
pub const BAR_GAP: u16 = 2;

/// The processors of a snapshot of the machine.
#[derive(Clone, Debug, PartialEq, Eq)]
pub struct CpuInfo {
    /// The name that the maker gave the processors.
    pub brand: String,
    /// The load of each processor, in percent, rounded down.
    pub usages: Vec<u64>,
    /// The load of all processors together, in percent, as the title shows
    /// it.
    pub total_usage: String,
    /// The frequency of the processors, in megahertz.
    pub frequency: u64,
}

/// One bar of the chart.
#[derive(Clone, Debug, PartialEq, Eq)]
pub struct CpuBar {
    pub label: String,
    pub text_value: String,
    pub value: u64,
}

/// A bar as mathematics sees it.
pub struct CpuBarView {
    pub label: Seq<char>,
    pub text_value: Seq<char>,
    pub value: nat,
}

impl View for CpuBar {
    type V = CpuBarView;

    open spec fn view(&self) -> CpuBarView {
        CpuBarView { label: self.label@, text_value: self.text_value@, value: self.value as nat }
    }
}

/// What the CPU panel shows.
#[derive(Clone, Debug, PartialEq, Eq)]
pub struct CpuChart {
    pub title: String,
    pub bars: Vec<CpuBar>,
    pub highlight: HighlightStyle,
}

/// The CPU panel of one frame, how far it can be scrolled, and how long its
/// content is for the scrollbar.
#[derive(Clone, Debug, PartialEq, Eq)]
pub struct CpuBarchart {
    pub chart: CpuChart,
    pub max_scroll: usize,
    pub real_content_length: usize,
}

/// The CPU panel as mathematics sees it.
pub struct CpuBarchartView {
    pub title: Seq<char>,
    pub bars: Seq<CpuBarView>,
    pub highlight: HighlightStyle,
    pub max_scroll: nat,
    pub real_content_length: nat,
}

impl View for CpuBarchart {
    type V = CpuBarchartView;

    open spec fn view(&self) -> CpuBarchartView {
        CpuBarchartView {
            title: self.chart.title@,
            bars: self.chart.bars@.map_values(|bar: CpuBar| bar@),
            highlight: self.chart.highlight,
            max_scroll: self.max_scroll as nat,
            real_content_length: self.real_content_length as nat,
        }
    }
}

/// The number of bars that fit side by side in a panel of the given width.
pub open spec fn visible_bars(layout_width: nat) -> nat {
    layout_width / ((BAR_WIDTH + BAR_GAP) as nat)
}

/// The bar of the processor with the number `index`, counted from zero: it
/// is labelled with the number counted from one, and shows the load in a
/// field of three characters before a percent sign.
pub open spec fn bar_view(index: nat, usage: nat) -> CpuBarView {
    CpuBarView {
        label: "CPU "@ + decimal_digits(index + 1),
        text_value: padded(decimal_digits(usage), 3, ' ') + "%"@,
        value: usage,
    }
}

/// The length of the content for the scrollbar: the width of all bars with
/// their gaps, or zero where exactly all bars fit.
pub open spec fn content_length(count: nat, layout_width: nat) -> nat {
    if visible_bars(layout_width) == count {
        0
    } else {
        count * ((BAR_WIDTH + BAR_GAP) as nat)
    }
}

/// The CPU panel for the given loads in a panel of the given width,
/// scrolled by `scroll_position` bars.
pub open spec fn barchart_view(
    usages: Seq<u64>,
    total_usage: Seq<char>,
    frequency: nat,
    layout_width: nat,
    scroll_position: nat,
    is_selected: bool,
) -> CpuBarchartView {
    let count = usages.len();
    let visible = visible_bars(layout_width);
    CpuBarchartView {
        title: "CPU Usage, Total: "@ + total_usage + "%, Max Frequency: "@ + decimal_digits(
            frequency,
        ) + " MHz"@,
        bars: Seq::new(
            window_len(count, scroll_position, visible),
            |k: int|
                bar_view(
                    (window_start(count, scroll_position) + k) as nat,
                    usages[window_start(count, scroll_position) + k] as nat,
                ),
        ),
        highlight: HighlightStyle::of(is_selected),
        max_scroll: scroll_range(count, visible),
        real_content_length: content_length(count, layout_width),
    }
}

fn bar_of(index: usize, usage: u64) -> (bar: CpuBar)
    requires
        index < usize::MAX,
    ensures
        bar@ == bar_view(index as nat, usage as nat),
{
    let mut label = String::from_str("CPU ");
    label.append(decimal((index + 1) as u64).as_str());
    let mut text_value = pad_with_spaces(decimal(usage), 3);
    text_value.append("%");
    CpuBar { label, text_value, value: usage }
}

/// Builds the CPU panel of a frame.
pub fn create_cpu_barchart(
    cpus: &CpuInfo,
    layout_width: usize,
    scroll_position: usize,
    is_selected: bool,
) -> (barchart: CpuBarchart)
    requires
        cpus.usages@.len() * (BAR_WIDTH + BAR_GAP) <= usize::MAX,
    ensures
        barchart@ == barchart_view(
            cpus.usages@,
            cpus.total_usage@,
            cpus.frequency as nat,
            layout_width as nat,
            scroll_position as nat,
            is_selected,
        ),
{
    let step: usize = (BAR_WIDTH + BAR_GAP) as usize;
    let visible = layout_width / step;
    let count = cpus.usages.len();
    let (start, len) = window_of(count, scroll_position, visible);
    let mut bars: Vec<CpuBar> = Vec::new();
    let mut done: usize = 0;
    while done < len
        invariant
            done <= len,
            start + len <= count,
            count == cpus.usages@.len(),
            bars@.map_values(|bar: CpuBar| bar@) =~= Seq::new(
                done as nat,
                |k: int| bar_view((start + k) as nat, cpus.usages@[start + k] as nat),
            ),
        decreases len - done,
    {
        let ghost before = bars@;
        let bar = bar_of(start + done, cpus.usages[start + done]);
        bars.push(bar);
        assert(bars@.map_values(|bar: CpuBar| bar@) =~= before.map_values(|bar: CpuBar| bar@).push(
            bar@,
        ));
        done = done + 1;
    }
    let mut title = String::from_str("CPU Usage, Total: ");
    title.append(cpus.total_usage.as_str());
    title.append("%, Max Frequency: ");
    title.append(decimal(cpus.frequency).as_str());
    title.append(" MHz");
    let real_content_length = if visible == count {
        0
    } else {
        count * step
    };
    let barchart = CpuBarchart {
        chart: CpuChart { title, bars, highlight: get_highlight_style(is_selected) },
        max_scroll: max_scroll_of(count, visible),
        real_content_length,
    };
    assert(barchart@.bars =~= barchart_view(
        cpus.usages@,
        cpus.total_usage@,
        cpus.frequency as nat,
        layout_width as nat,
        scroll_position as nat,
        is_selected,
    ).bars);
    barchart
}

} // verus!
