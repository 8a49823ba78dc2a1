//! The layout engine: the terminal area is cut into a footer row and a main
//! area, the main area into four bands, the first band into the CPU panel and
//! the memory panel, the memory panel into two gauges. The cutting itself is
//! done by the rendering toolkit; this module says which cuts are made, what
//! is known of their outcome, and which point lies in which rectangle.

use ratatui::layout::{Constraint, Direction, Layout, Rect};
use vstd::prelude::*;

verus! {

/// An axis-aligned rectangle of terminal cells.
#[derive(Clone, Copy, Debug, PartialEq, Eq, Structural)]
pub struct PanelRect {
    pub x: u16,
    pub y: u16,
    pub width: u16,
    pub height: u16,
}

impl PanelRect {
    /// The rectangle at the origin with no cells.
    pub open spec fn zero() -> PanelRect {
        PanelRect { x: 0, y: 0, width: 0, height: 0 }
    }

    /// Whether the cell `(x, y)` lies in the rectangle. The low edges belong
    /// to it, the high edges do not.
    pub open spec fn contains(self, x: int, y: int) -> bool {
        &&& self.x <= x < self.x + self.width
        &&& self.y <= y < self.y + self.height
    }

    pub fn empty() -> (rect: PanelRect)
        ensures
            rect == PanelRect::zero(),
    {
        PanelRect { x: 0, y: 0, width: 0, height: 0 }
    }
}

/// The direction in which an area is cut into parts.
#[derive(Clone, Copy, Debug, PartialEq, Eq, Structural)]
pub enum SplitDirection {
    /// The parts lie side by side.
    Horizontal,
    /// The parts lie one below the other.
    Vertical,
}

/// What one part of a cut asks for along the direction of the cut.
#[derive(Clone, Copy, Debug, PartialEq, Eq, Structural)]
pub enum SplitRule {
    /// A share of the area, in percent.
    Percentage(u16),
    /// A fixed number of cells.
    Length(u16),
    /// At least this number of cells.
    Min(u16),
}

/// `area` without a margin of `horizontal` cells at its left and right and
/// of `vertical` cells at its top and bottom; the rectangle `zero()` where
/// the area is too small for the margin.
pub open spec fn inset(area: PanelRect, horizontal: u16, vertical: u16) -> PanelRect {
    let across = if 2 * horizontal > u16::MAX { u16::MAX as int } else { 2 * horizontal };
    let down = if 2 * vertical > u16::MAX { u16::MAX as int } else { 2 * vertical };
    if area.width < across || area.height < down {
        PanelRect::zero()
    } else {
        PanelRect {
            x: if area.x + horizontal > u16::MAX { u16::MAX } else { (area.x + horizontal) as u16 },
            y: if area.y + vertical > u16::MAX { u16::MAX } else { (area.y + vertical) as u16 },
            width: (area.width - across) as u16,
            height: (area.height - down) as u16,
        }
    }
}

/// Whether `part` reaches from one side of `inner` to the other, across the
/// direction of the cut.
pub open spec fn spans(part: PanelRect, inner: PanelRect, direction: SplitDirection) -> bool {
    match direction {
        SplitDirection::Vertical => part.x == inner.x && part.width == inner.width,
        SplitDirection::Horizontal => part.y == inner.y && part.height == inner.height,
    }
}

/// Whether `parts` can be what the toolkit makes of cutting `area` into
/// `count` parts: there is one part for each rule, and each part reaches
/// across the area within its margins. Where the toolkit puts the cuts is not
/// part of this.
pub open spec fn is_cut_of(
    parts: Seq<PanelRect>,
    area: PanelRect,
    direction: SplitDirection,
    horizontal_margin: u16,
    vertical_margin: u16,
    count: nat,
) -> bool {
    &&& parts.len() == count
    &&& forall|i: int|
        0 <= i < parts.len() ==> spans(
            #[trigger] parts[i],
            inset(area, horizontal_margin, vertical_margin),
            direction,
        )
}

/// Calls `ratatui::layout::Layout::split` on a layout with the given
/// direction, margins and one constraint per rule.
///
/// The toolkit solves for the parts with a constraint solver whose choice
/// among equally good answers is not fixed, and rounds each bound of each
/// part on its own, so nothing is claimed of where the cuts fall. Claimed is
/// what the toolkit's code fixes before and after solving: there is one part
/// per rule, and each part has, across the direction of the cut, the position
/// and extent of the area within its margins.
#[verifier::external_body]
pub(crate) fn split_area(
    direction: SplitDirection,
    across: u16,
    down: u16,
    rules: &Vec<SplitRule>,
    area: PanelRect,
) -> (parts: Vec<PanelRect>)
    ensures
        is_cut_of(parts@, area, direction, across, down, rules@.len()),
{
    let rules = rules.iter().map(|rule| match rule {
        SplitRule::Percentage(p) => Constraint::Percentage(*p),
        SplitRule::Length(n) => Constraint::Length(*n),
        SplitRule::Min(n) => Constraint::Min(*n),
    });
    let direction = match direction {
        SplitDirection::Horizontal => Direction::Horizontal,
        SplitDirection::Vertical => Direction::Vertical,
    };
    Layout::default().direction(direction).horizontal_margin(across).vertical_margin(down)
        .constraints(rules.collect::<Vec<Constraint>>())
        .split(Rect { x: area.x, y: area.y, width: area.width, height: area.height })
        .iter().map(|r| PanelRect { x: r.x, y: r.y, width: r.width, height: r.height }).collect()
}

impl PanelRect {
    /// Where the rectangle begins along `direction`: its top for a cut
    /// into rows, its left edge for a cut into columns.
    pub open spec fn near(self, direction: SplitDirection) -> int {
        match direction {
            SplitDirection::Vertical => self.y as int,
            SplitDirection::Horizontal => self.x as int,
        }
    }

    /// How far the rectangle extends along `direction`.
    pub open spec fn extent(self, direction: SplitDirection) -> int {
        match direction {
            SplitDirection::Vertical => self.height as int,
            SplitDirection::Horizontal => self.width as int,
        }
    }

    /// Where the rectangle ends along `direction`: the first coordinate
    /// past it.
    pub open spec fn far(self, direction: SplitDirection) -> int {
        self.near(direction) + self.extent(direction)
    }

    /// Where the rectangle ends on the screen: its end, or the largest
    /// coordinate of the screen where the rectangle goes beyond that.
    pub open spec fn reach(self, direction: SplitDirection) -> int {
        if self.far(direction) > u16::MAX {
            u16::MAX as int
        } else {
            self.far(direction)
        }
    }

    /// Whether the rectangle lies within `outer`.
    pub open spec fn lies_within(self, outer: PanelRect) -> bool {
        &&& outer.x <= self.x
        &&& self.x + self.width <= outer.x + outer.width
        &&& outer.y <= self.y
        &&& self.y + self.height <= outer.y + outer.height
    }
}

/// Whether `parts` tile `inner` along `direction`: each part reaches across
/// `inner`, the first begins where `inner` begins, each next one begins where
/// the one before ends, and the last ends where `inner` ends on the screen.
pub open spec fn tiles(parts: Seq<PanelRect>, inner: PanelRect, direction: SplitDirection) -> bool {
    &&& forall|i: int| 0 <= i < parts.len() ==> spans(#[trigger] parts[i], inner, direction)
    &&& forall|i: int|
        0 <= i < parts.len() ==> inner.near(direction) <= (#[trigger] parts[i]).near(direction)
            && parts[i].far(direction) <= inner.reach(direction)
    &&& parts.len() > 0 ==> parts[0].near(direction) == inner.near(direction)
        && parts.last().far(direction) == inner.reach(direction)
    &&& forall|i: int|
        0 < i < parts.len() ==> (#[trigger] parts[i]).near(direction) == parts[i - 1].far(
            direction,
        )
}

/// The place of the cut before the part with the number `i`, for parts as
/// the toolkit gave them: the first cut is where `inner` begins, the cut
/// behind the last part is where `inner` ends on the screen, and each cut
/// between two parts is where the toolkit begins the second of them, but not
/// before the cut before it and not behind the end.
pub open spec fn cut_at(
    parts: Seq<PanelRect>,
    inner: PanelRect,
    direction: SplitDirection,
    i: int,
) -> int
    decreases i,
{
    if i <= 0 {
        inner.near(direction)
    } else if i >= parts.len() {
        inner.reach(direction)
    } else {
        let before = cut_at(parts, inner, direction, i - 1);
        let asked = parts[i].near(direction);
        if asked < before {
            before
        } else if asked > inner.reach(direction) {
            inner.reach(direction)
        } else {
            asked
        }
    }
}

/// The rectangle that reaches across `inner` and, along `direction`, from
/// `from` to `to`.
pub open spec fn placed(inner: PanelRect, direction: SplitDirection, from: int, to: int) -> PanelRect {
    match direction {
        SplitDirection::Vertical => PanelRect {
            x: inner.x,
            y: from as u16,
            width: inner.width,
            height: (to - from) as u16,
        },
        SplitDirection::Horizontal => PanelRect {
            x: from as u16,
            y: inner.y,
            width: (to - from) as u16,
            height: inner.height,
        },
    }
}

/// The parts that tile `inner` with the cuts of `parts`: each part lies
/// between the cut before it and the cut behind it.
pub open spec fn tiled(
    parts: Seq<PanelRect>,
    inner: PanelRect,
    direction: SplitDirection,
) -> Seq<PanelRect> {
    Seq::new(
        parts.len(),
        |i: int|
            placed(
                inner,
                direction,
                cut_at(parts, inner, direction, i),
                cut_at(parts, inner, direction, i + 1),
            ),
    )
}

/// Every cut lies between the beginning and the end of `inner`, and no cut
/// lies before the cut before it.
pub proof fn lemma_cuts_are_in_order(
    parts: Seq<PanelRect>,
    inner: PanelRect,
    direction: SplitDirection,
    i: int,
)
    requires
        0 <= i,
    ensures
        inner.near(direction) <= cut_at(parts, inner, direction, i) <= inner.reach(direction),
        cut_at(parts, inner, direction, i) <= cut_at(parts, inner, direction, i + 1),
    decreases i,
{
    if i > 0 {
        lemma_cuts_are_in_order(parts, inner, direction, i - 1);
    }
}

/// A rectangle placed between two cuts begins at the first, ends at the
/// second and reaches across `inner`.
proof fn lemma_placed_between(inner: PanelRect, direction: SplitDirection, from: int, to: int)
    requires
        0 <= from <= to <= u16::MAX,
    ensures
        placed(inner, direction, from, to).near(direction) == from,
        placed(inner, direction, from, to).far(direction) == to,
        spans(placed(inner, direction, from, to), inner, direction),
{
}

/// The part with the number `i` lies between the cut before it and the cut
/// behind it.
proof fn lemma_tiled_part(
    parts: Seq<PanelRect>,
    inner: PanelRect,
    direction: SplitDirection,
    i: int,
)
    requires
        0 <= i < parts.len(),
    ensures
        tiled(parts, inner, direction)[i].near(direction) == cut_at(parts, inner, direction, i),
        tiled(parts, inner, direction)[i].far(direction) == cut_at(parts, inner, direction, i + 1),
        spans(tiled(parts, inner, direction)[i], inner, direction),
        inner.near(direction) <= cut_at(parts, inner, direction, i),
        cut_at(parts, inner, direction, i + 1) <= inner.reach(direction),
{
    lemma_cuts_are_in_order(parts, inner, direction, i);
    lemma_cuts_are_in_order(parts, inner, direction, i + 1);
    lemma_placed_between(
        inner,
        direction,
        cut_at(parts, inner, direction, i),
        cut_at(parts, inner, direction, i + 1),
    );
}

/// The parts with the cuts of `parts` tile `inner`, whatever `parts` are.
pub proof fn lemma_tiled_parts_tile(
    parts: Seq<PanelRect>,
    inner: PanelRect,
    direction: SplitDirection,
)
    ensures
        tiles(tiled(parts, inner, direction), inner, direction),
        tiled(parts, inner, direction).len() == parts.len(),
{
    let fitted = tiled(parts, inner, direction);
    assert forall|i: int| 0 <= i < fitted.len() implies {
        &&& spans(#[trigger] fitted[i], inner, direction)
        &&& inner.near(direction) <= fitted[i].near(direction)
        &&& fitted[i].far(direction) <= inner.reach(direction)
    } by {
        lemma_tiled_part(parts, inner, direction, i);
    }
    assert forall|i: int| 0 < i < fitted.len() implies (#[trigger] fitted[i]).near(direction)
        == fitted[i - 1].far(direction) by {
        lemma_tiled_part(parts, inner, direction, i);
        lemma_tiled_part(parts, inner, direction, i - 1);
    }
    if fitted.len() > 0 {
        lemma_tiled_part(parts, inner, direction, 0);
        lemma_tiled_part(parts, inner, direction, fitted.len() - 1);
    }
}

/// Parts that tile `inner` already have their cuts where they are.
proof fn lemma_cuts_of_tiling_parts(
    parts: Seq<PanelRect>,
    inner: PanelRect,
    direction: SplitDirection,
    i: int,
)
    requires
        tiles(parts, inner, direction),
        0 <= i < parts.len(),
    ensures
        cut_at(parts, inner, direction, i) == parts[i].near(direction),
    decreases i,
{
    if i > 0 {
        lemma_cuts_of_tiling_parts(parts, inner, direction, i - 1);
        assert(parts[i].near(direction) == parts[i - 1].far(direction));
    }
}

/// Parts that tile `inner` are left as they are.
pub proof fn lemma_tiling_parts_stay(
    parts: Seq<PanelRect>,
    inner: PanelRect,
    direction: SplitDirection,
)
    requires
        tiles(parts, inner, direction),
    ensures
        tiled(parts, inner, direction) == parts,
{
    let fitted = tiled(parts, inner, direction);
    assert forall|i: int| 0 <= i < parts.len() implies fitted[i] == parts[i] by {
        lemma_cuts_of_tiling_parts(parts, inner, direction, i);
        assert(spans(parts[i], inner, direction));
        if i + 1 < parts.len() {
            lemma_cuts_of_tiling_parts(parts, inner, direction, i + 1);
            assert(parts[i + 1].near(direction) == parts[i].far(direction));
        } else {
            assert(parts.last() == parts[i]);
        }
    }
    assert(fitted =~= parts);
}

/// Computes `area` within its margins.
pub fn inset_of(area: PanelRect, horizontal: u16, vertical: u16) -> (inner: PanelRect)
    ensures
        inner == inset(area, horizontal, vertical),
{
    let across: u32 = if 2 * (horizontal as u32) > 0xffff {
        0xffff
    } else {
        2 * (horizontal as u32)
    };
    let down: u32 = if 2 * (vertical as u32) > 0xffff {
        0xffff
    } else {
        2 * (vertical as u32)
    };
    if (area.width as u32) < across || (area.height as u32) < down {
        PanelRect { x: 0, y: 0, width: 0, height: 0 }
    } else {
        let x: u32 = area.x as u32 + horizontal as u32;
        let y: u32 = area.y as u32 + vertical as u32;
        PanelRect {
            x: if x > 0xffff {
                0xffff
            } else {
                x as u16
            },
            y: if y > 0xffff {
                0xffff
            } else {
                y as u16
            },
            width: (area.width as u32 - across) as u16,
            height: (area.height as u32 - down) as u16,
        }
    }
}

fn near_of(rect: &PanelRect, direction: SplitDirection) -> (near: u32)
    ensures
        near == rect.near(direction),
{
    match direction {
        SplitDirection::Vertical => rect.y as u32,
        SplitDirection::Horizontal => rect.x as u32,
    }
}

fn reach_of(rect: &PanelRect, direction: SplitDirection) -> (reach: u32)
    ensures
        reach == rect.reach(direction),
{
    let far: u32 = match direction {
        SplitDirection::Vertical => rect.y as u32 + rect.height as u32,
        SplitDirection::Horizontal => rect.x as u32 + rect.width as u32,
    };
    if far > 0xffff {
        0xffff
    } else {
        far
    }
}

/// Holds the parts that the toolkit gave to the area that they were cut
/// from: the parts keep the toolkit's cuts and tile `inner`. Parts that tile
/// `inner` as they come are returned as they are.
pub fn tile(parts: &Vec<PanelRect>, inner: PanelRect, direction: SplitDirection) -> (fitted: Vec<
    PanelRect,
>)
    ensures
        fitted@ == tiled(parts@, inner, direction),
        fitted@.len() == parts@.len(),
        tiles(fitted@, inner, direction),
        tiles(parts@, inner, direction) ==> fitted@ == parts@,
{
    let count = parts.len();
    let end = reach_of(&inner, direction);
    let mut fitted: Vec<PanelRect> = Vec::new();
    let mut from: u32 = near_of(&inner, direction);
    let mut at: usize = 0;
    while at < count
        invariant
            at <= count,
            count == parts@.len(),
            end == inner.reach(direction),
            from == cut_at(parts@, inner, direction, at as int),
            inner.near(direction) <= from <= end,
            fitted@ =~= Seq::new(
                at as nat,
                |i: int|
                    placed(
                        inner,
                        direction,
                        cut_at(parts@, inner, direction, i),
                        cut_at(parts@, inner, direction, i + 1),
                    ),
            ),
        decreases count - at,
    {
        let to: u32 = if at + 1 >= count {
            end
        } else {
            let asked = near_of(&parts[at + 1], direction);
            if asked < from {
                from
            } else if asked > end {
                end
            } else {
                asked
            }
        };
        assert(to == cut_at(parts@, inner, direction, at + 1));
        let part = match direction {
            SplitDirection::Vertical => PanelRect {
                x: inner.x,
                y: from as u16,
                width: inner.width,
                height: (to - from) as u16,
            },
            SplitDirection::Horizontal => PanelRect {
                x: from as u16,
                y: inner.y,
                width: (to - from) as u16,
                height: inner.height,
            },
        };
        assert(part == placed(inner, direction, from as int, to as int));
        fitted.push(part);
        from = to;
        at = at + 1;
    }
    proof {
        lemma_tiled_parts_tile(parts@, inner, direction);
        if tiles(parts@, inner, direction) {
            lemma_tiling_parts_stay(parts@, inner, direction);
        }
    }
    fitted
}

/// Cuts `area`, within its margins, into one part for each rule. The
/// toolkit says where the cuts fall; the parts are held to tile the area
/// within its margins, and are the toolkit's own where those tile it.
pub fn cut(
    direction: SplitDirection,
    across: u16,
    down: u16,
    rules: &Vec<SplitRule>,
    area: PanelRect,
) -> (parts: Vec<PanelRect>)
    ensures
        parts@.len() == rules@.len(),
        tiles(parts@, inset(area, across, down), direction),
{
    let asked = split_area(direction, across, down, rules, area);
    tile(&asked, inset_of(area, across, down), direction)
}

/// The two gauges of the memory panel.
#[derive(Clone, Copy, Debug, PartialEq, Eq, Structural)]
pub struct MemoryLayout {
    pub ram_layout: PanelRect,
    pub swap_layout: PanelRect,
}

/// The first band: the CPU panel beside the memory panel.
#[derive(Clone, Copy, Debug, PartialEq, Eq, Structural)]
pub struct CpuMemoryLayout {
    pub cpu_layout: PanelRect,
    pub memory_layout: MemoryLayout,
}

/// The four bands of the main area.
#[derive(Clone, Copy, Debug, PartialEq, Eq, Structural)]
pub struct MainLayout {
    pub cpu_plus_memory_layout: CpuMemoryLayout,
    pub processes_layout: PanelRect,
    pub disk_layout: PanelRect,
    pub network_layout: PanelRect,
}

/// The rectangles of one frame.
#[derive(Clone, Copy, Debug, PartialEq, Eq, Structural)]
pub struct AppLayout {
    pub main_layout: MainLayout,
    pub footer_area: PanelRect,
}

/// What the four bands of the main area ask for: 30 percent for CPU and
/// memory, 30 for the processes, 18 for the disks, 20 for the networks.
pub open spec fn band_rules() -> Seq<SplitRule> {
    seq![
        SplitRule::Percentage(30),
        SplitRule::Percentage(30),
        SplitRule::Percentage(18),
        SplitRule::Percentage(20),
    ]
}

/// What two equal halves ask for.
pub open spec fn half_rules() -> Seq<SplitRule> {
    seq![SplitRule::Percentage(50), SplitRule::Percentage(50)]
}

/// What the rows of a frame ask for: the main area takes what the footer
/// leaves, the footer takes one row.
pub open spec fn frame_rules() -> Seq<SplitRule> {
    seq![SplitRule::Min(0), SplitRule::Length(1)]
}

/// Makes a list of percentages.
pub fn percentages(shares: &[u16]) -> (rules: Vec<SplitRule>)
    ensures
        rules@ == shares@.map_values(|share: u16| SplitRule::Percentage(share)),
{
    let mut rules: Vec<SplitRule> = Vec::new();
    let mut at: usize = 0;
    while at < shares.len()
        invariant
            at <= shares@.len(),
            rules@ == shares@.take(at as int).map_values(|share: u16| SplitRule::Percentage(share)),
        decreases shares@.len() - at,
    {
        rules.push(SplitRule::Percentage(shares[at]));
        assert(shares@.take(at + 1).map_values(|share: u16| SplitRule::Percentage(share))
            =~= shares@.take(at as int).map_values(|share: u16| SplitRule::Percentage(share)).push(
            SplitRule::Percentage(shares@[at as int]),
        ));
        at = at + 1;
    }
    assert(shares@.take(at as int) =~= shares@);
    rules
}

/// The rules of the four bands of the main area.
pub fn band_shares() -> (rules: Vec<SplitRule>)
    ensures
        rules@ == band_rules(),
{
    let rules = percentages(&[30, 30, 18, 20]);
    assert(rules@ =~= band_rules());
    rules
}

/// The rules of two equal halves.
pub fn half_shares() -> (rules: Vec<SplitRule>)
    ensures
        rules@ == half_rules(),
{
    let rules = percentages(&[50, 50]);
    assert(rules@ =~= half_rules());
    rules
}

/// The rules of the rows of a frame.
pub fn frame_shares() -> (rules: Vec<SplitRule>)
    ensures
        rules@ == frame_rules(),
{
    let mut rules: Vec<SplitRule> = Vec::new();
    rules.push(SplitRule::Min(0));
    rules.push(SplitRule::Length(1));
    assert(rules@ =~= frame_rules());
    rules
}

/// The footer of a frame for the terminal area `area`: the last row of the
/// area on the screen, or no row where the area has none.
pub open spec fn footer_row(area: PanelRect) -> PanelRect {
    let bottom = area.reach(SplitDirection::Vertical);
    let rows: int = if bottom > area.y { 1 } else { 0 };
    PanelRect { x: area.x, y: (bottom - rows) as u16, width: area.width, height: rows as u16 }
}

/// The main area of a frame for the terminal area `area`: what the footer
/// leaves of the area on the screen.
pub open spec fn main_rows(area: PanelRect) -> PanelRect {
    PanelRect {
        x: area.x,
        y: area.y,
        width: area.width,
        height: (footer_row(area).y - area.y) as u16,
    }
}

impl MainLayout {
    /// The main layout made of the four bands, the two halves of the first
    /// band and the two halves of its second half.
    pub open spec fn assembled(
        bands: Seq<PanelRect>,
        halves: Seq<PanelRect>,
        gauges: Seq<PanelRect>,
    ) -> MainLayout {
        MainLayout {
            cpu_plus_memory_layout: CpuMemoryLayout {
                cpu_layout: halves[0],
                memory_layout: MemoryLayout { ram_layout: gauges[0], swap_layout: gauges[1] },
            },
            processes_layout: bands[1],
            disk_layout: bands[2],
            network_layout: bands[3],
        }
    }

    /// Whether this layout lays out `inner_area`. With `inner` for the area
    /// within a margin of one row above and below:
    ///
    /// - the bands reach across `inner`; the first begins at its top, each
    ///   next one begins where the one before ends, the last ends at its
    ///   bottom;
    /// - the first band holds the CPU panel at the left and the memory panel
    ///   beside it, which begins where the CPU panel ends and ends at the
    ///   right edge of `inner`;
    /// - the memory panel holds the gauge for main memory above the gauge for
    ///   swap, which begins where the first ends and ends with the band.
    pub open spec fn lays_out(self, inner_area: PanelRect) -> bool {
        let inner = inset(inner_area, 0, 1);
        let right = inner.reach(SplitDirection::Horizontal);
        let bottom = inner.reach(SplitDirection::Vertical);
        let cpu = self.cpu_plus_memory_layout.cpu_layout;
        let ram = self.cpu_plus_memory_layout.memory_layout.ram_layout;
        let swap = self.cpu_plus_memory_layout.memory_layout.swap_layout;
        &&& spans(self.processes_layout, inner, SplitDirection::Vertical)
        &&& spans(self.disk_layout, inner, SplitDirection::Vertical)
        &&& spans(self.network_layout, inner, SplitDirection::Vertical)
        &&& cpu.y == inner.y
        &&& self.processes_layout.y == cpu.y + cpu.height
        &&& self.disk_layout.y == self.processes_layout.y + self.processes_layout.height
        &&& self.network_layout.y == self.disk_layout.y + self.disk_layout.height
        &&& self.network_layout.y + self.network_layout.height == bottom
        &&& cpu.x == inner.x
        &&& ram.x == cpu.x + cpu.width
        &&& ram.x + ram.width == right
        &&& ram.y == cpu.y
        &&& swap.y == ram.y + ram.height
        &&& swap.y + swap.height == cpu.y + cpu.height
        &&& swap.x == ram.x
        &&& swap.width == ram.width
    }

    /// Puts the parts of the three cuts into their places.
    pub fn assemble(
        bands: &Vec<PanelRect>,
        halves: &Vec<PanelRect>,
        gauges: &Vec<PanelRect>,
    ) -> (layout: MainLayout)
        requires
            bands@.len() == 4,
            halves@.len() == 2,
            gauges@.len() == 2,
        ensures
            layout == MainLayout::assembled(bands@, halves@, gauges@),
    {
        MainLayout {
            cpu_plus_memory_layout: CpuMemoryLayout {
                cpu_layout: halves[0],
                memory_layout: MemoryLayout { ram_layout: gauges[0], swap_layout: gauges[1] },
            },
            processes_layout: bands[1],
            disk_layout: bands[2],
            network_layout: bands[3],
        }
    }
}

/// A layout made of parts that tile lays out the area: of four bands that
/// tile `inner_area` within its margin, two halves that tile the first band,
/// and two gauges that tile the second half.
pub proof fn lemma_tiling_parts_lay_out(
    bands: Seq<PanelRect>,
    halves: Seq<PanelRect>,
    gauges: Seq<PanelRect>,
    inner_area: PanelRect,
)
    requires
        bands.len() == 4,
        halves.len() == 2,
        gauges.len() == 2,
        tiles(bands, inset(inner_area, 0, 1), SplitDirection::Vertical),
        tiles(halves, bands[0], SplitDirection::Horizontal),
        tiles(gauges, halves[1], SplitDirection::Vertical),
    ensures
        MainLayout::assembled(bands, halves, gauges).lays_out(inner_area),
{
    let inner = inset(inner_area, 0, 1);
    let down = SplitDirection::Vertical;
    let across = SplitDirection::Horizontal;
    assert(spans(bands[0], inner, down) && spans(bands[1], inner, down));
    assert(spans(bands[2], inner, down) && spans(bands[3], inner, down));
    assert(bands[1].near(down) == bands[0].far(down));
    assert(bands[2].near(down) == bands[1].far(down));
    assert(bands[3].near(down) == bands[2].far(down));
    assert(bands.last() == bands[3]);
    assert(bands[0].far(down) <= inner.reach(down));
    assert(spans(halves[0], bands[0], across) && spans(halves[1], bands[0], across));
    assert(halves[1].near(across) == halves[0].far(across));
    assert(halves.last() == halves[1]);
    assert(halves[1].far(across) <= bands[0].reach(across));
    assert(spans(gauges[0], halves[1], down) && spans(gauges[1], halves[1], down));
    assert(gauges[1].near(down) == gauges[0].far(down));
    assert(gauges.last() == gauges[1]);
}

/// The six panels of a layout lie within the area that was laid out, inside
/// its margin.
pub proof fn lemma_panels_lie_within(layout: MainLayout, inner_area: PanelRect)
    requires
        layout.lays_out(inner_area),
    ensures
        layout.cpu_plus_memory_layout.cpu_layout.lies_within(inset(inner_area, 0, 1)),
        layout.cpu_plus_memory_layout.memory_layout.ram_layout.lies_within(
            inset(inner_area, 0, 1),
        ),
        layout.cpu_plus_memory_layout.memory_layout.swap_layout.lies_within(
            inset(inner_area, 0, 1),
        ),
        layout.processes_layout.lies_within(inset(inner_area, 0, 1)),
        layout.disk_layout.lies_within(inset(inner_area, 0, 1)),
        layout.network_layout.lies_within(inset(inner_area, 0, 1)),
{
}

/// The number of panels of `layout` that hold the cell `(x, y)`.
pub open spec fn panels_at(layout: MainLayout, x: int, y: int) -> int {
    let count = |rect: PanelRect| -> int {
        if rect.contains(x, y) {
            1int
        } else {
            0int
        }
    };
    count(layout.cpu_plus_memory_layout.cpu_layout) + count(
        layout.cpu_plus_memory_layout.memory_layout.ram_layout,
    ) + count(layout.cpu_plus_memory_layout.memory_layout.swap_layout) + count(
        layout.processes_layout,
    ) + count(layout.disk_layout) + count(layout.network_layout)
}

/// No cell lies in two panels of a layout, and every cell of a panel is a
/// cell of the area that was laid out.
pub proof fn lemma_panels_share_no_cell(layout: MainLayout, inner_area: PanelRect, x: int, y: int)
    requires
        layout.lays_out(inner_area),
    ensures
        panels_at(layout, x, y) <= 1,
        panels_at(layout, x, y) == 1 ==> inner_area.contains(x, y),
{
}

impl AppLayout {
    /// The layout of no frame: every rectangle is empty, so no point lies
    /// in any panel.
    pub open spec fn none() -> AppLayout {
        AppLayout {
            main_layout: MainLayout {
                cpu_plus_memory_layout: CpuMemoryLayout {
                    cpu_layout: PanelRect::zero(),
                    memory_layout: MemoryLayout {
                        ram_layout: PanelRect::zero(),
                        swap_layout: PanelRect::zero(),
                    },
                },
                processes_layout: PanelRect::zero(),
                disk_layout: PanelRect::zero(),
                network_layout: PanelRect::zero(),
            },
            footer_area: PanelRect::zero(),
        }
    }

    /// The layout before the first frame.
    pub fn empty() -> (layout: AppLayout)
        ensures
            layout == AppLayout::none(),
    {
        AppLayout {
            main_layout: MainLayout {
                cpu_plus_memory_layout: CpuMemoryLayout {
                    cpu_layout: PanelRect::empty(),
                    memory_layout: MemoryLayout {
                        ram_layout: PanelRect::empty(),
                        swap_layout: PanelRect::empty(),
                    },
                },
                processes_layout: PanelRect::empty(),
                disk_layout: PanelRect::empty(),
                network_layout: PanelRect::empty(),
            },
            footer_area: PanelRect::empty(),
        }
    }

    /// Whether this layout lays out the terminal area `area`: the footer is
    /// the last row of the area, and the main layout lays out the rows above
    /// it.
    pub open spec fn lays_out(self, area: PanelRect) -> bool {
        &&& self.footer_area == footer_row(area)
        &&& self.main_layout.lays_out(main_rows(area))
    }
}

/// The panels of a frame and its footer lie in the terminal area, and no
/// cell lies in two of them.
pub proof fn lemma_frame_shares_no_cell(layout: AppLayout, area: PanelRect, x: int, y: int)
    requires
        layout.lays_out(area),
    ensures
        panels_at(layout.main_layout, x, y) + (if layout.footer_area.contains(x, y) {
            1int
        } else {
            0int
        }) <= 1,
        panels_at(layout.main_layout, x, y) == 1 ==> area.contains(x, y),
        layout.footer_area.contains(x, y) ==> area.contains(x, y),
        layout.footer_area.lies_within(area),
{
    lemma_panels_share_no_cell(layout.main_layout, main_rows(area), x, y);
    lemma_panels_lie_within(layout.main_layout, main_rows(area));
}

/// Lays out the main area: four bands within a margin of one row, the first
/// band halved into CPU and memory, the memory half halved into its gauges.
pub fn prepare_main_layout(inner_area: PanelRect) -> (layout: MainLayout)
    ensures
        layout.lays_out(inner_area),
{
    let bands = cut(SplitDirection::Vertical, 0, 1, &band_shares(), inner_area);
    let halves = cut(SplitDirection::Horizontal, 0, 0, &half_shares(), bands[0]);
    let gauges = cut(SplitDirection::Vertical, 0, 0, &half_shares(), halves[1]);
    proof {
        assert(inset(bands@[0], 0, 0) == bands@[0]);
        assert(inset(halves@[1], 0, 0) == halves@[1]);
        lemma_tiling_parts_lay_out(bands@, halves@, gauges@, inner_area);
    }
    MainLayout::assemble(&bands, &halves, &gauges)
}

/// The two rows of a frame, from the two parts that the area was cut into:
/// the parts as they are where the second is the last row of the area, and
/// else the last row of the area and what it leaves.
pub fn frame_rows(rows: &Vec<PanelRect>, area: PanelRect) -> (parts: (PanelRect, PanelRect))
    requires
        rows@.len() == 2,
        tiles(rows@, area, SplitDirection::Vertical),
    ensures
        parts.0 == main_rows(area),
        parts.1 == footer_row(area),
        rows@[1].height == footer_row(area).height ==> parts.0 == rows@[0] && parts.1 == rows@[1],
{
    let top: u32 = area.y as u32;
    let bottom: u32 = reach_of(&area, SplitDirection::Vertical);
    let footer_rows: u32 = if bottom > top {
        1
    } else {
        0
    };
    proof {
        assert(spans(rows@[0], area, SplitDirection::Vertical));
        assert(spans(rows@[1], area, SplitDirection::Vertical));
        assert(rows@[1].near(SplitDirection::Vertical) == rows@[0].far(SplitDirection::Vertical));
        assert(rows@.last() == rows@[1]);
    }
    if rows[1].height as u32 == footer_rows {
        (rows[0], rows[1])
    } else {
        (
            PanelRect {
                x: area.x,
                y: area.y,
                width: area.width,
                height: (bottom - footer_rows - top) as u16,
            },
            PanelRect {
                x: area.x,
                y: (bottom - footer_rows) as u16,
                width: area.width,
                height: footer_rows as u16,
            },
        )
    }
}

/// Lays out the terminal area: the main area above a footer of one row.
pub fn prepare_layout(area: PanelRect) -> (layout: AppLayout)
    ensures
        layout.lays_out(area),
{
    let rows = cut(SplitDirection::Vertical, 0, 0, &frame_shares(), area);
    assert(inset(area, 0, 0) == area);
    let (main_area, footer_area) = frame_rows(&rows, area);
    AppLayout { main_layout: prepare_main_layout(main_area), footer_area }
}

/// The colour of a border or a title.
#[derive(Clone, Copy, Debug, PartialEq, Eq, Structural)]
pub enum PanelColor {
    /// The terminal's own colour.
    Unset,
    Red,
}

/// How a border or a title is drawn.
#[derive(Clone, Copy, Debug, PartialEq, Eq, Structural)]
pub struct PanelStyle {
    pub foreground: PanelColor,
    pub bold: bool,
}

/// The line that a border is drawn with.
#[derive(Clone, Copy, Debug, PartialEq, Eq, Structural)]
pub enum BorderKind {
    Plain,
    Thick,
}

/// How a panel shows whether it has the focus.
#[derive(Clone, Copy, Debug, PartialEq, Eq, Structural)]
pub struct HighlightStyle {
    pub border: PanelStyle,
    pub title: PanelStyle,
    pub border_type: BorderKind,
}

impl HighlightStyle {
    /// The focused panel has a thick red border and a bold title; the
    /// others have a plain border and a plain title.
    pub open spec fn of(is_selected: bool) -> HighlightStyle {
        HighlightStyle {
            border: PanelStyle {
                foreground: if is_selected { PanelColor::Red } else { PanelColor::Unset },
                bold: false,
            },
            title: PanelStyle { foreground: PanelColor::Unset, bold: is_selected },
            border_type: if is_selected { BorderKind::Thick } else { BorderKind::Plain },
        }
    }
}

/// The style of a panel that has the focus, or of one that has not.
pub fn get_highlight_style(is_selected: bool) -> (style: HighlightStyle)
    ensures
        style == HighlightStyle::of(is_selected),
{
    let border = PanelStyle {
        foreground: if is_selected { PanelColor::Red } else { PanelColor::Unset },
        bold: false,
    };
    let title = PanelStyle { foreground: PanelColor::Unset, bold: is_selected };
    let border_type = if is_selected { BorderKind::Thick } else { BorderKind::Plain };
    HighlightStyle { border, title, border_type }
}

/// Whether the cell `pos` lies in `rect`.
pub fn is_within_rect(pos: (u16, u16), rect: &PanelRect) -> (inside: bool)
    ensures
        inside == rect.contains(pos.0 as int, pos.1 as int),
{
    let x: u32 = pos.0 as u32;
    let y: u32 = pos.1 as u32;
    let left: u32 = rect.x as u32;
    let top: u32 = rect.y as u32;
    x >= left && x < left + rect.width as u32 && y >= top && y < top + rect.height as u32
}

/// The top-left cell of a rectangle that has cells lies in it.
pub proof fn lemma_top_left_is_inside(rect: PanelRect)
    requires
        rect.width > 0,
        rect.height > 0,
    ensures
        rect.contains(rect.x as int, rect.y as int),
{
}

/// The cells just past the right edge and just past the bottom edge lie
/// outside, and so does every cell of an empty rectangle.
pub proof fn lemma_high_edges_are_outside(rect: PanelRect, x: int, y: int)
    ensures
        !rect.contains(rect.x + rect.width, y),
        !rect.contains(x, rect.y + rect.height),
        rect.width == 0 || rect.height == 0 ==> !rect.contains(x, y),
{
}

/// A rectangle that begins where another ends, to its right or below it,
/// shares no cell with it: no point on the common edge is claimed twice.
pub proof fn lemma_adjacent_rects_share_no_cell(first: PanelRect, second: PanelRect, x: int, y: int)
    requires
        second.x >= first.x + first.width || second.y >= first.y + first.height,
    ensures
        !(first.contains(x, y) && second.contains(x, y)),
{
}

} // verus!
