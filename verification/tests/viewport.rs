use ratatui::widgets::ScrollbarState;
use reson::viewport::{
    max_scroll_of, visible_lines_of, window_of, Orientation, ViewportState,
};

fn lines(max_scroll: usize) -> ViewportState {
    let mut viewport = ViewportState::new(Orientation::Vertical);
    viewport.set_values(max_scroll, max_scroll);
    viewport
}

#[test]
fn a_new_viewport_has_nothing_to_scroll() {
    let viewport = ViewportState::new(Orientation::Horizontal);
    assert_eq!(viewport.position(), 0);
    assert_eq!(viewport.max_scroll(), 0);
    assert_eq!(viewport.content_length(), 0);
    assert_eq!(viewport.thumb(), 0);
    assert_eq!(viewport.orientation(), Orientation::Horizontal);
    assert_eq!(viewport.scrollbar_state(), ScrollbarState::new(0));
}

#[test]
fn scrolling_does_nothing_where_nothing_can_be_scrolled() {
    let mut viewport = lines(0);
    viewport.scroll_next();
    assert_eq!(viewport.position(), 0);
    viewport.scroll_prev();
    assert_eq!(viewport.position(), 0);
    viewport.scroll_next();
    viewport.scroll_next();
    assert_eq!(viewport.position(), 0);
    assert_eq!(viewport.thumb(), 0);
}

#[test]
fn seven_steps_reach_the_end_and_an_eighth_stays_there() {
    let mut viewport = lines(7);
    for step in 1..=7 {
        viewport.scroll_next();
        assert_eq!(viewport.position(), step);
    }
    assert_eq!(viewport.position(), 7);
    viewport.scroll_next();
    assert_eq!(viewport.position(), 7);
}

#[test]
fn scrolling_backward_stops_at_zero() {
    let mut viewport = lines(3);
    viewport.scroll_next();
    viewport.scroll_next();
    viewport.scroll_prev();
    assert_eq!(viewport.position(), 1);
    viewport.scroll_prev();
    assert_eq!(viewport.position(), 0);
    viewport.scroll_prev();
    assert_eq!(viewport.position(), 0);
}

#[test]
fn the_position_stays_within_its_bounds_whatever_the_steps() {
    let mut viewport = lines(4);
    let steps = [1, 1, 0, 1, 1, 1, 1, 1, 0, 0, 0, 0, 0, 0, 1, 0, 1, 1];
    for step in steps {
        if step == 1 {
            viewport.scroll_next();
        } else {
            viewport.scroll_prev();
        }
        assert!(viewport.position() <= viewport.max_scroll());
    }
    assert_eq!(viewport.position(), 2);
}

#[test]
fn a_shrinking_panel_takes_one_step_back_from_the_end() {
    let mut viewport = lines(10);
    for _ in 0..10 {
        viewport.scroll_next();
    }
    assert_eq!(viewport.position(), 10);
    viewport.resize(8, 8);
    assert_eq!(viewport.position(), 9);
    assert_eq!(viewport.max_scroll(), 8);
}

#[test]
fn a_frame_leaves_the_position_where_the_panel_was_not_at_its_end() {
    let mut viewport = lines(10);
    for _ in 0..4 {
        viewport.scroll_next();
    }
    viewport.resize(8, 8);
    assert_eq!(viewport.position(), 4);
    viewport.resize(12, 12);
    assert_eq!(viewport.position(), 4);
    assert_eq!(viewport.max_scroll(), 12);
}

#[test]
fn a_growing_panel_leaves_the_position_at_the_old_end() {
    let mut viewport = lines(5);
    for _ in 0..5 {
        viewport.scroll_next();
    }
    viewport.resize(9, 9);
    assert_eq!(viewport.position(), 5);
    viewport.resize(9, 9);
    assert_eq!(viewport.position(), 5);
}

#[test]
fn a_position_beyond_the_end_returns_to_the_end_with_the_next_step_forward() {
    let mut viewport = lines(10);
    for _ in 0..10 {
        viewport.scroll_next();
    }
    viewport.resize(8, 8);
    assert_eq!(viewport.position(), 9);
    viewport.scroll_next();
    assert_eq!(viewport.position(), 8);
}

#[test]
fn the_thumb_of_a_column_of_lines_is_the_position() {
    let mut viewport = lines(6);
    viewport.scroll_next();
    viewport.scroll_next();
    viewport.scroll_next();
    assert_eq!(viewport.thumb(), 3);
    assert_eq!(viewport.scrollbar_state(), ScrollbarState::new(6).position(3));
    viewport.scroll_prev();
    assert_eq!(viewport.thumb(), 2);
    assert_eq!(viewport.scrollbar_state(), ScrollbarState::new(6).position(2));
}

#[test]
fn the_thumb_of_a_row_of_blocks_moves_by_the_length_of_a_step() {
    let mut viewport = ViewportState::new(Orientation::Horizontal);
    // 16 bars of 9 cells, 12 of them visible: 4 steps of 144 / 4 = 36 cells.
    viewport.set_values(4, 144);
    viewport.scroll_next();
    assert_eq!(viewport.thumb(), 36);
    viewport.scroll_next();
    viewport.scroll_next();
    assert_eq!(viewport.thumb(), 108);
    assert_eq!(viewport.scrollbar_state(), ScrollbarState::new(144).position(108));
    viewport.scroll_prev();
    assert_eq!(viewport.thumb(), 72);
}

#[test]
fn the_length_of_a_step_is_rounded_down() {
    let mut viewport = ViewportState::new(Orientation::Horizontal);
    viewport.set_values(7, 30);
    viewport.scroll_next();
    viewport.scroll_next();
    viewport.scroll_next();
    assert_eq!(viewport.position(), 3);
    assert_eq!(viewport.thumb(), 12);
}

#[test]
fn new_bounds_alone_move_neither_position_nor_thumb() {
    let mut viewport = lines(6);
    viewport.scroll_next();
    viewport.scroll_next();
    viewport.set_values(20, 50);
    assert_eq!(viewport.position(), 2);
    assert_eq!(viewport.thumb(), 2);
    assert_eq!(viewport.max_scroll(), 20);
    assert_eq!(viewport.content_length(), 50);
    assert_eq!(viewport.scrollbar_state(), ScrollbarState::new(50).position(2));
}

#[test]
fn the_thumb_stays_where_nothing_can_be_scrolled_any_more() {
    let mut viewport = lines(6);
    viewport.scroll_next();
    viewport.scroll_next();
    viewport.resize(0, 0);
    assert_eq!(viewport.position(), 2);
    assert_eq!(viewport.thumb(), 2);
    viewport.current_pos_scroll_update();
    assert_eq!(viewport.thumb(), 2);
}

#[test]
fn a_thumb_beyond_the_largest_number_stops_there() {
    let mut viewport = ViewportState::new(Orientation::Horizontal);
    viewport.set_values(3, 9);
    viewport.scroll_next();
    viewport.scroll_next();
    viewport.scroll_next();
    viewport.set_values(1, usize::MAX);
    viewport.current_pos_scroll_update();
    assert_eq!(viewport.position(), 3);
    assert_eq!(viewport.thumb(), usize::MAX);
}

#[test]
fn the_lines_that_do_not_fit_can_be_scrolled() {
    assert_eq!(max_scroll_of(10, 4), 6);
    assert_eq!(max_scroll_of(4, 4), 0);
    assert_eq!(max_scroll_of(3, 4), 0);
    assert_eq!(max_scroll_of(0, 0), 0);
}

#[test]
fn a_window_shows_what_is_left_from_the_scroll_position() {
    assert_eq!(window_of(10, 0, 4), (0, 4));
    assert_eq!(window_of(10, 6, 4), (6, 4));
    assert_eq!(window_of(10, 8, 4), (8, 2));
    assert_eq!(window_of(10, 10, 4), (10, 0));
    assert_eq!(window_of(10, 15, 4), (10, 0));
    assert_eq!(window_of(3, 0, usize::MAX), (0, 3));
    assert_eq!(window_of(3, usize::MAX, usize::MAX), (3, 0));
}

#[test]
fn the_border_takes_two_rows_of_a_panel() {
    assert_eq!(visible_lines_of(0), 0);
    assert_eq!(visible_lines_of(1), 0);
    assert_eq!(visible_lines_of(2), 0);
    assert_eq!(visible_lines_of(3), 1);
    assert_eq!(visible_lines_of(12), 10);
}
