//! The disk panel: the disks of the machine, the fullest first, one line
//! for each.

use crate::layout::{get_highlight_style, HighlightStyle};
use crate::order::{
    lemma_rules_that_agree, lemma_stable_order_is_the_order, stable_order, stable_order_of,
    Precedence,
};
use crate::text::{decimal, decimal_digits, join_lines, joined_lines, texts};
use crate::viewport::{lines_within_border, max_scroll_of, scroll_range, visible_lines_of};
use vstd::prelude::*;

verus! {

/// One disk of a snapshot of the machine.
#[derive(Clone, Debug, PartialEq, Eq)]
pub struct DiskInfo {
    pub name: String,
    /// The size of the disk, in bytes.
    pub total_space: u64,
    /// The space that is free, in bytes.
    pub available_space: u64,
    /// The share of the disk that is in use, in percent, rounded down.
    pub used_percent: u64,
    /// The share of the disk that is free, in percent, rounded down.
    pub free_percent: u64,
}

/// A disk as mathematics sees it.
pub struct DiskView {
    pub name: Seq<char>,
    pub total_space: nat,
    pub available_space: nat,
    pub used_percent: nat,
    pub free_percent: nat,
}

impl DiskView {
    /// A disk has no more free space than space.
    pub open spec fn is_consistent(self) -> bool {
        self.available_space <= self.total_space
    }

    /// The space that is in use, in bytes.
    pub open spec fn used_space(self) -> nat {
        (self.total_space - self.available_space) as nat
    }
}

impl View for DiskInfo {
    type V = DiskView;

    open spec fn view(&self) -> DiskView {
        DiskView {
            name: self.name@,
            total_space: self.total_space as nat,
            available_space: self.available_space as nat,
            used_percent: self.used_percent as nat,
            free_percent: self.free_percent as nat,
        }
    }
}

/// The views of a list of disks.
pub open spec fn disk_views(disks: Seq<DiskInfo>) -> Seq<DiskView> {
    disks.map_values(|disk: DiskInfo| disk@)
}

/// Whether every disk of the list has no more free space than space.
pub open spec fn all_consistent(disks: Seq<DiskView>) -> bool {
    forall|i: int| 0 <= i < disks.len() ==> (#[trigger] disks[i]).is_consistent()
}

/// The rule of the panel: the disk with more space in use comes first.
pub open spec fn disk_rule(disks: Seq<DiskView>) -> spec_fn(int, int) -> bool {
    |i: int, j: int| disks[i].used_space() > disks[j].used_space()
}

/// The order in which the panel shows the disks, as their numbers in the
/// snapshot: the fullest first, disks that tie in the order of the snapshot.
pub open spec fn disk_order_of(disks: Seq<DiskView>) -> Seq<usize> {
    stable_order_of(disks.len(), disk_rule(disks))
}

/// The number of bytes in a gibibyte.
pub open spec fn gibibyte() -> nat {
    1024 * 1024 * 1024
}

/// The line of a disk: its place in the panel, its name, and in brackets
/// the free space, the space in use and the size, the first two in percent
/// and in gibibytes, the size in gibibytes, all rounded down.
pub open spec fn disk_line(number: nat, disk: DiskView) -> Seq<char> {
    decimal_digits(number) + ". "@ + disk.name + " [Free: "@ + decimal_digits(disk.free_percent)
        + "%("@ + decimal_digits(disk.available_space / gibibyte()) + " GB), Used: "@
        + decimal_digits(disk.used_percent) + "%("@ + decimal_digits(
        disk.used_space() / gibibyte(),
    ) + " GB), Total: "@ + decimal_digits(disk.total_space / gibibyte()) + " GB]"@
}

/// What the disk panel shows.
#[derive(Clone, Debug, PartialEq, Eq)]
pub struct DisksChart {
    pub title: String,
    /// The lines of all disks, with line feeds between them.
    pub text: String,
    /// The number of lines by which the text is scrolled.
    pub scroll: u16,
    pub highlight: HighlightStyle,
}

/// The disk panel of one frame, and how far it can be scrolled.
#[derive(Clone, Debug, PartialEq, Eq)]
pub struct DisksWidget {
    pub chart: DisksChart,
    pub max_scroll: usize,
}

/// The disk panel as mathematics sees it.
pub struct DisksWidgetView {
    pub title: Seq<char>,
    pub text: Seq<char>,
    pub scroll: nat,
    pub highlight: HighlightStyle,
    pub max_scroll: nat,
}

impl View for DisksWidget {
    type V = DisksWidgetView;

    open spec fn view(&self) -> DisksWidgetView {
        DisksWidgetView {
            title: self.chart.title@,
            text: self.chart.text@,
            scroll: self.chart.scroll as nat,
            highlight: self.chart.highlight,
            max_scroll: self.max_scroll as nat,
        }
    }
}

/// The disk panel for the given disks in a panel of `layout_height` rows of
/// which two are its border, scrolled by `scroll_position` lines. The panel
/// holds the lines of all disks; the scroll offset is the position as far as
/// it fits in sixteen bits.
pub open spec fn widget_view(
    disks: Seq<DiskView>,
    layout_height: nat,
    scroll_position: nat,
    is_selected: bool,
) -> DisksWidgetView {
    let order = disk_order_of(disks);
    DisksWidgetView {
        title: "Disk Usage"@,
        text: joined_lines(
            Seq::new(disks.len(), |k: int| disk_line((k + 1) as nat, disks[order[k] as int])),
        ),
        scroll: scroll_position % 0x1_0000,
        highlight: HighlightStyle::of(is_selected),
        max_scroll: scroll_range(disks.len(), lines_within_border(layout_height)),
    }
}

/// The disks of a snapshot.
pub struct DiskOrder<'a> {
    pub disks: &'a Vec<DiskInfo>,
}

impl<'a> Precedence for DiskOrder<'a> {
    open spec fn count(&self) -> nat {
        self.disks@.len()
    }

    open spec fn before(&self, i: int, j: int) -> bool {
        self.disks@[i].total_space - self.disks@[i].available_space > self.disks@[j].total_space
            - self.disks@[j].available_space
    }

    fn len(&self) -> (n: usize) {
        self.disks.len()
    }

    fn is_before(&self, i: usize, j: usize) -> (yes: bool) {
        let left = &self.disks[i];
        let right = &self.disks[j];
        left.total_space as i128 - left.available_space as i128 > right.total_space as i128
            - right.available_space as i128
    }

    proof fn lemma_rule_is_consistent(&self, i: int, j: int, k: int) {
    }
}

/// Checks that every disk has no more free space than space.
pub fn are_consistent(disks: &Vec<DiskInfo>) -> (yes: bool)
    ensures
        yes == all_consistent(disk_views(disks@)),
{
    let mut at: usize = 0;
    while at < disks.len()
        invariant
            at <= disks@.len(),
            forall|i: int| 0 <= i < at ==> (#[trigger] disk_views(disks@)[i]).is_consistent(),
        decreases disks@.len() - at,
    {
        if disks[at].available_space > disks[at].total_space {
            assert(!disk_views(disks@)[at as int].is_consistent());
            return false;
        }
        at = at + 1;
    }
    true
}

fn line_of(number: usize, disk: &DiskInfo) -> (line: String)
    requires
        disk@.is_consistent(),
    ensures
        line@ == disk_line(number as nat, disk@),
{
    let gib: u64 = 1024 * 1024 * 1024;
    let mut line = decimal(number as u64);
    line.append(". ");
    line.append(disk.name.as_str());
    line.append(" [Free: ");
    line.append(decimal(disk.free_percent).as_str());
    line.append("%(");
    line.append(decimal(disk.available_space / gib).as_str());
    line.append(" GB), Used: ");
    line.append(decimal(disk.used_percent).as_str());
    line.append("%(");
    line.append(decimal((disk.total_space - disk.available_space) / gib).as_str());
    line.append(" GB), Total: ");
    line.append(decimal(disk.total_space / gib).as_str());
    line.append(" GB]");
    line
}

/// Builds the disk panel of a frame.
pub fn create_disks_widget(
    disks: &Vec<DiskInfo>,
    layout_height: usize,
    scroll_position: usize,
    is_selected: bool,
) -> (widget: DisksWidget)
    requires
        all_consistent(disk_views(disks@)),
    ensures
        widget@ == widget_view(
            disk_views(disks@),
            layout_height as nat,
            scroll_position as nat,
            is_selected,
        ),
{
    let visible_lines = visible_lines_of(layout_height);
    let items = DiskOrder { disks };
    let order = stable_order(&items);
    let ghost views = disk_views(disks@);
    proof {
        assert forall|i: int, j: int| 0 <= i < views.len() && 0 <= j < views.len() implies (
        #[trigger] items.before(i, j)) == disk_rule(views)(i, j) by {
            assert(views[i].is_consistent());
            assert(views[j].is_consistent());
        }
        lemma_rules_that_agree(
            order@,
            items.count(),
            |i: int, j: int| items.before(i, j),
            disk_rule(views),
        );
        lemma_stable_order_is_the_order(order@, views.len(), disk_rule(views));
    }
    let mut lines: Vec<String> = Vec::new();
    let mut done: usize = 0;
    while done < order.len()
        invariant
            done <= order@.len(),
            order@.len() == disks@.len(),
            views == disk_views(disks@),
            all_consistent(views),
            forall|i: int| 0 <= i < order@.len() ==> (#[trigger] order@[i]) < disks@.len(),
            texts(lines@) =~= Seq::new(
                done as nat,
                |k: int| disk_line((k + 1) as nat, views[order@[k] as int]),
            ),
        decreases order@.len() - done,
    {
        let ghost before = lines@;
        assert(views[order@[done as int] as int].is_consistent());
        let line = line_of(done + 1, &disks[order[done]]);
        lines.push(line);
        assert(texts(lines@) =~= texts(before).push(line@));
        done = done + 1;
    }
    let widget = DisksWidget {
        chart: DisksChart {
            title: String::from_str("Disk Usage"),
            text: join_lines(&lines),
            scroll: (scroll_position % 0x1_0000) as u16,
            highlight: get_highlight_style(is_selected),
        },
        max_scroll: max_scroll_of(disks.len(), visible_lines),
    };
    assert(texts(lines@) =~= Seq::new(
        views.len(),
        |k: int| disk_line((k + 1) as nat, views[disk_order_of(views)[k] as int]),
    ));
    widget
}

} // verus!
