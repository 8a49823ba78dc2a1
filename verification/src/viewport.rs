//! The viewport of a scrollable panel: how far the panel is scrolled, how
//! far it can be scrolled, and where the thumb of its scrollbar stands.

use ratatui::widgets::ScrollbarState;
use vstd::prelude::*;

verus! {

/// The state of the rendering toolkit's scrollbar. Nothing can be read from
/// it here: it is made for the toolkit and handed to it as it is.
#[verifier::external_type_specification]
#[verifier::external_body]
pub struct ExScrollbarState(ScrollbarState);

/// The state of the toolkit's scrollbar for content of the length
/// `content_length` with the thumb at `position`: the value that
/// `ratatui::widgets::ScrollbarState::new(content_length)` becomes when
/// `ScrollbarState::position(position)` is called on it. The toolkit keeps
/// the two numbers in the state as they are and computes nothing from them,
/// so the value depends on the two numbers alone. What the toolkit draws for
/// such a state is the toolkit's matter, and no part of what is claimed
/// here.
pub uninterp spec fn scrollbar_of(content_length: usize, position: usize) -> ScrollbarState;

/// Calls `ratatui::widgets::ScrollbarState::new` with the length of the
/// content, and `ScrollbarState::position` with the position of the thumb
/// on what it returns. The first stores the length in a state whose other
/// numbers are zero, the second stores the position and leaves the length.
/// Claimed is that the result is the state named after the two numbers.
#[verifier::external_body]
fn scrollbar_for(content_length: usize, position: usize) -> (state: ScrollbarState)
    ensures
        state == scrollbar_of(content_length, position),
{
    ScrollbarState::new(content_length).position(position)
}

/// The direction in which a panel scrolls.
#[derive(Clone, Copy, Debug, PartialEq, Eq, Structural)]
pub enum Orientation {
    /// The content is a row of blocks of equal width; the panel scrolls
    /// left and right.
    Horizontal,
    /// The content is a column of lines; the panel scrolls up and down.
    Vertical,
}

/// One step of scrolling.
#[derive(Clone, Copy, Debug, PartialEq, Eq, Structural)]
pub enum ScrollStep {
    Next,
    Prev,
}

/// The viewport as mathematics sees it.
pub struct ViewportView {
    pub orientation: Orientation,
    /// The number of steps the panel is scrolled by.
    pub position: nat,
    /// The largest position that scrolling forward reaches.
    pub max_scroll: nat,
    /// The length of the content, in the scrollbar's units.
    pub content_length: nat,
    /// The position of the scrollbar's thumb, in the same units.
    pub thumb: nat,
}

impl ViewportView {
    /// The viewport of a panel with nothing to scroll.
    pub open spec fn fresh(orientation: Orientation) -> ViewportView {
        ViewportView { orientation, position: 0, max_scroll: 0, content_length: 0, thumb: 0 }
    }

    /// Whether the position is within the range that can be scrolled to.
    pub open spec fn in_bounds(self) -> bool {
        self.position <= self.max_scroll
    }

    /// Where the thumb belongs for the current position. In a column of
    /// lines it is the position itself. In a row of blocks each step is as
    /// long as the content divided by the number of steps, rounded down; the
    /// product is cut off at the largest machine integer.
    pub open spec fn thumb_offset(self) -> nat {
        match self.orientation {
            Orientation::Vertical => self.position,
            Orientation::Horizontal => {
                let offset = self.position * (self.content_length / self.max_scroll);
                if offset > usize::MAX {
                    usize::MAX as nat
                } else {
                    offset
                }
            },
        }
    }

    /// The viewport with the thumb where it belongs. Where nothing can be
    /// scrolled the thumb stays where it is.
    pub open spec fn thumb_synced(self) -> ViewportView {
        if self.max_scroll == 0 {
            self
        } else {
            ViewportView { thumb: self.thumb_offset(), ..self }
        }
    }

    /// The viewport after one step forward: the position grows by one but
    /// not beyond `max_scroll`, to which a position beyond it returns. Where
    /// nothing can be scrolled nothing changes.
    pub open spec fn scrolled_next(self) -> ViewportView {
        if self.max_scroll == 0 {
            self
        } else {
            let position = if self.position + 1 > self.max_scroll {
                self.max_scroll
            } else {
                self.position + 1
            };
            ViewportView { position, ..self }.thumb_synced()
        }
    }

    /// The viewport after one step backward: the position shrinks by one
    /// but not below zero. Where nothing can be scrolled nothing changes.
    pub open spec fn scrolled_prev(self) -> ViewportView {
        if self.max_scroll == 0 {
            self
        } else {
            let position = if self.position == 0 {
                0
            } else {
                (self.position - 1) as nat
            };
            ViewportView { position, ..self }.thumb_synced()
        }
    }

    /// The viewport after one step.
    pub open spec fn stepped(self, step: ScrollStep) -> ViewportView {
        match step {
            ScrollStep::Next => self.scrolled_next(),
            ScrollStep::Prev => self.scrolled_prev(),
        }
    }

    /// The viewport after a sequence of steps, taken in order.
    pub open spec fn after_steps(self, steps: Seq<ScrollStep>) -> ViewportView
        decreases steps.len(),
    {
        if steps.len() == 0 {
            self
        } else {
            self.after_steps(steps.drop_last()).stepped(steps.last())
        }
    }

    /// The viewport with new bounds; position and thumb stay.
    pub open spec fn with_bounds(self, max_scroll: nat, content_length: nat) -> ViewportView {
        ViewportView { max_scroll, content_length, ..self }
    }

    /// The position that a frame with the bound `max_scroll` starts from:
    /// one less than before where the panel was scrolled to its end and the
    /// end has come nearer, else the position as it was.
    pub open spec fn corrected_position(self, max_scroll: nat) -> nat {
        if self.position == self.max_scroll && max_scroll < self.max_scroll {
            (self.position - 1) as nat
        } else {
            self.position
        }
    }

    /// The viewport after a frame that found the bounds `max_scroll` and
    /// `content_length`: the position is corrected, the bounds are taken
    /// over, and the thumb is put where it belongs.
    pub open spec fn resized(self, max_scroll: nat, content_length: nat) -> ViewportView {
        ViewportView { position: self.corrected_position(max_scroll), ..self }.with_bounds(
            max_scroll,
            content_length,
        ).thumb_synced()
    }
}

/// The scroll state of one panel.
#[derive(Clone, Copy, Debug, PartialEq, Eq)]
pub struct ViewportState {
    orientation: Orientation,
    pos: usize,
    max_scroll: usize,
    content_length: usize,
    thumb: usize,
}

impl View for ViewportState {
    type V = ViewportView;

    closed spec fn view(&self) -> ViewportView {
        ViewportView {
            orientation: self.orientation,
            position: self.pos as nat,
            max_scroll: self.max_scroll as nat,
            content_length: self.content_length as nat,
            thumb: self.thumb as nat,
        }
    }
}

impl ViewportState {
    /// A viewport with nothing to scroll.
    pub fn new(orientation: Orientation) -> (state: ViewportState)
        ensures
            state@ == ViewportView::fresh(orientation),
    {
        ViewportState {
            orientation,
            pos: 0,
            max_scroll: 0,
            content_length: 0,
            thumb: 0,
        }
    }

    /// The state of the toolkit's scrollbar for this viewport: it holds the
    /// length of the content as the bounds were last set, and the position
    /// of the thumb as it last was put.
    pub fn scrollbar_state(&self) -> (state: ScrollbarState)
        ensures
            state == scrollbar_of(self@.content_length as usize, self@.thumb as usize),
    {
        scrollbar_for(self.content_length, self.thumb)
    }

    pub fn orientation(&self) -> (orientation: Orientation)
        ensures
            orientation == self@.orientation,
    {
        self.orientation
    }

    pub fn position(&self) -> (position: usize)
        ensures
            position == self@.position,
    {
        self.pos
    }

    pub fn max_scroll(&self) -> (max_scroll: usize)
        ensures
            max_scroll == self@.max_scroll,
    {
        self.max_scroll
    }

    pub fn content_length(&self) -> (content_length: usize)
        ensures
            content_length == self@.content_length,
    {
        self.content_length
    }

    pub fn thumb(&self) -> (thumb: usize)
        ensures
            thumb == self@.thumb,
    {
        self.thumb
    }

    /// Scrolls one step forward.
    pub fn scroll_next(&mut self)
        ensures
            final(self)@ == old(self)@.scrolled_next(),
            old(self)@.max_scroll != 0 ==> final(self)@.in_bounds(),
    {
        if self.max_scroll == 0 {
            return ;
        }
        self.pos = if self.pos < self.max_scroll {
            self.pos + 1
        } else {
            self.max_scroll
        };
        self.current_pos_scroll_update();
    }

    /// Scrolls one step backward.
    pub fn scroll_prev(&mut self)
        ensures
            final(self)@ == old(self)@.scrolled_prev(),
            old(self)@.in_bounds() ==> final(self)@.in_bounds(),
    {
        if self.max_scroll == 0 {
            return ;
        }
        self.pos = if self.pos == 0 {
            0
        } else {
            self.pos - 1
        };
        self.current_pos_scroll_update();
    }

    /// Takes over the bounds that a frame found.
    pub fn set_values(&mut self, max_scroll: usize, content_length: usize)
        ensures
            final(self)@ == old(self)@.with_bounds(max_scroll as nat, content_length as nat),
    {
        self.max_scroll = max_scroll;
        self.content_length = content_length;
    }

    /// Puts the thumb where it belongs for the current position.
    pub fn current_pos_scroll_update(&mut self)
        ensures
            final(self)@ == old(self)@.thumb_synced(),
    {
        if self.max_scroll == 0 {
            return ;
        }
        match self.orientation {
            Orientation::Vertical => {
                self.thumb = self.pos;
            },
            Orientation::Horizontal => {
                let step = self.content_length / self.max_scroll;
                self.thumb = match self.pos.checked_mul(step) {
                    Some(offset) => offset,
                    None => usize::MAX,
                };
            },
        }
    }

    /// Brings the viewport up to date with the bounds that a frame found.
    pub fn resize(&mut self, max_scroll: usize, content_length: usize)
        ensures
            final(self)@ == old(self)@.resized(max_scroll as nat, content_length as nat),
    {
        if self.pos == self.max_scroll && max_scroll < self.max_scroll {
            self.pos = self.pos - 1;
        }
        self.set_values(max_scroll, content_length);
        self.current_pos_scroll_update();
    }
}

/// A position within its bounds stays within them, whatever steps are taken.
pub proof fn lemma_scrolling_stays_in_bounds(start: ViewportView, steps: Seq<ScrollStep>)
    requires
        start.in_bounds(),
    ensures
        start.after_steps(steps).in_bounds(),
        start.after_steps(steps).max_scroll == start.max_scroll,
    decreases steps.len(),
{
    if steps.len() > 0 {
        lemma_scrolling_stays_in_bounds(start, steps.drop_last());
    }
}

/// Where nothing can be scrolled, no sequence of steps changes anything.
pub proof fn lemma_nothing_to_scroll(start: ViewportView, steps: Seq<ScrollStep>)
    requires
        start.max_scroll == 0,
    ensures
        start.after_steps(steps) == start,
    decreases steps.len(),
{
    if steps.len() > 0 {
        lemma_nothing_to_scroll(start, steps.drop_last());
    }
}

/// From a position within its bounds, `count` steps forward lead to the
/// position `count` further on, or to the end where that is nearer.
pub proof fn lemma_steps_forward(start: ViewportView, count: nat)
    requires
        start.in_bounds(),
    ensures
        start.after_steps(Seq::new(count, |i: int| ScrollStep::Next)).position == if start.position
            + count > start.max_scroll {
            start.max_scroll
        } else {
            start.position + count
        },
    decreases count,
{
    let steps = Seq::new(count, |i: int| ScrollStep::Next);
    if count > 0 {
        let fewer = Seq::new((count - 1) as nat, |i: int| ScrollStep::Next);
        assert(steps.drop_last() =~= fewer);
        lemma_steps_forward(start, (count - 1) as nat);
        lemma_scrolling_stays_in_bounds(start, fewer);
    }
}

/// A frame corrects the position by at most one step, and only where the
/// panel was scrolled to its end and the end has come nearer.
pub proof fn lemma_resize_correction(start: ViewportView, max_scroll: nat, content_length: nat)
    ensures
        start.resized(max_scroll, content_length).max_scroll == max_scroll,
        start.resized(max_scroll, content_length).content_length == content_length,
        start.position == start.max_scroll && max_scroll < start.max_scroll ==> start.resized(
            max_scroll,
            content_length,
        ).position == start.position - 1,
        !(start.position == start.max_scroll && max_scroll < start.max_scroll) ==> start.resized(
            max_scroll,
            content_length,
        ).position == start.position,
{
}

/// The number of steps by which `count` lines can be scrolled in a window
/// of `visible` lines: the lines that do not fit.
pub open spec fn scroll_range(count: nat, visible: nat) -> nat {
    if count > visible {
        (count - visible) as nat
    } else {
        0
    }
}

/// The index of the first line that a window scrolled by `scroll` shows.
pub open spec fn window_start(count: nat, scroll: nat) -> nat {
    if scroll < count {
        scroll
    } else {
        count
    }
}

/// The number of lines that a window of `visible` lines scrolled by
/// `scroll` shows.
pub open spec fn window_len(count: nat, scroll: nat, visible: nat) -> nat {
    let rest = (count - window_start(count, scroll)) as nat;
    if visible < rest {
        visible
    } else {
        rest
    }
}

/// Computes the number of steps by which `count` lines can be scrolled.
pub fn max_scroll_of(count: usize, visible: usize) -> (steps: usize)
    ensures
        steps == scroll_range(count as nat, visible as nat),
{
    if count > visible {
        count - visible
    } else {
        0
    }
}

/// Computes the first line and the number of lines that a window shows.
pub fn window_of(count: usize, scroll: usize, visible: usize) -> (window: (usize, usize))
    ensures
        window.0 == window_start(count as nat, scroll as nat),
        window.1 == window_len(count as nat, scroll as nat, visible as nat),
        window.0 + window.1 <= count,
{
    let start = if scroll < count {
        scroll
    } else {
        count
    };
    let rest = count - start;
    let len = if visible < rest {
        visible
    } else {
        rest
    };
    (start, len)
}

/// The number of lines that a panel of `height` rows shows within its
/// border, which takes two rows: none where the panel is all border.
pub open spec fn lines_within_border(height: nat) -> nat {
    if height >= 2 {
        (height - 2) as nat
    } else {
        0
    }
}

/// Computes the number of lines that a panel shows within its border.
pub fn visible_lines_of(height: usize) -> (lines: usize)
    ensures
        lines == lines_within_border(height as nat),
{
    if height >= 2 {
        height - 2
    } else {
        0
    }
}

} // verus!
