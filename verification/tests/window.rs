use log_watcher::state::WindowState;
use log_watcher::{Line, Style};

fn numbered(count: usize) -> Vec<Line> {
    let mut lines = Vec::new();
    for i in 0..count {
        lines.push(Line::new(&format!("l{}", i), Style::Category(i % 3)));
    }
    lines
}

fn texts_of(lines: &[Line]) -> Vec<String> {
    lines.iter().map(|line| line.text.clone()).collect()
}

#[test]
fn new_window_shows_and_selects_nothing() {
    let window = WindowState::new();
    assert!(window.lines().is_empty());
    assert!(!window.line_is_selected());
    assert!(window.selected_line().is_none());
    assert_eq!(window.selected_line_index(), 0);
    assert_eq!(window.selected_line_index_relative(), 0);
    assert_eq!(window.line_count(), 0);
    assert_eq!(window.displayed_line_amount(), 0);
}

#[test]
fn default_window_is_a_new_window() {
    let mut window = WindowState::default();
    assert!(window.lines().is_empty());
    assert!(!window.line_is_selected());
    assert_eq!(window.line_count(), 0);
    window.display_lines(&numbered(2), 3);
    assert_eq!(texts_of(window.lines()), vec!["l1"]);
}

#[test]
fn display_lines_shows_newest_first_without_border_rows() {
    let lines = numbered(10);
    let mut window = WindowState::new();
    window.display_lines(&lines, 7);
    assert_eq!(window.displayed_line_amount(), 5);
    assert_eq!(window.line_count(), 10);
    assert_eq!(texts_of(window.lines()), vec!["l9", "l8", "l7", "l6", "l5"]);
    assert_eq!(window.lines()[0].style, Style::Category(0));
    assert_eq!(window.lines()[1].style, Style::Category(2));
    assert!(window.selected_line().is_none());
}

#[test]
fn display_lines_shows_all_of_a_short_sequence() {
    let lines = numbered(2);
    let mut window = WindowState::new();
    window.display_lines(&lines, 40);
    assert_eq!(window.displayed_line_amount(), 38);
    assert_eq!(texts_of(window.lines()), vec!["l1", "l0"]);
}

#[test]
fn first_previous_selects_newest_line_without_moving() {
    let lines = numbered(10);
    let mut window = WindowState::new();
    window.display_lines(&lines, 7);
    window.previous();
    assert!(window.line_is_selected());
    assert_eq!(window.selected_line_index(), 0);
    assert_eq!(window.selected_line_index_relative(), 0);
    window.display_lines(&lines, 7);
    assert_eq!(window.lines()[0], Line::new("l9", Style::Reversed));
    assert_eq!(window.lines()[1], Line::new("l8", Style::Category(2)));
    assert_eq!(window.selected_line(), Some(&Line::new("l9", Style::Category(0))));
}

#[test]
fn selected_row_moves_until_the_edge_then_the_window_scrolls() {
    let lines = numbered(10);
    let mut window = WindowState::new();
    window.display_lines(&lines, 7);
    for _ in 0..5 {
        window.previous();
    }
    assert_eq!(window.selected_line_index(), 4);
    assert_eq!(window.selected_line_index_relative(), 4);
    window.display_lines(&lines, 7);
    assert_eq!(texts_of(window.lines()), vec!["l9", "l8", "l7", "l6", "l5"]);
    assert_eq!(window.lines()[4].style, Style::Reversed);

    window.previous();
    assert_eq!(window.selected_line_index(), 5);
    assert_eq!(window.selected_line_index_relative(), 4);
    window.display_lines(&lines, 7);
    assert_eq!(texts_of(window.lines()), vec!["l8", "l7", "l6", "l5", "l4"]);
    assert_eq!(window.lines()[4], Line::new("l4", Style::Reversed));
    assert_eq!(window.selected_line(), Some(&Line::new("l4", Style::Category(1))));
}

#[test]
fn next_moves_line_and_row_back() {
    let lines = numbered(10);
    let mut window = WindowState::new();
    window.display_lines(&lines, 7);
    for _ in 0..7 {
        window.previous();
    }
    assert_eq!(window.selected_line_index(), 6);
    assert_eq!(window.selected_line_index_relative(), 4);
    window.next();
    assert_eq!(window.selected_line_index(), 5);
    assert_eq!(window.selected_line_index_relative(), 3);
    window.display_lines(&lines, 7);
    assert_eq!(texts_of(window.lines()), vec!["l7", "l6", "l5", "l4", "l3"]);
    assert_eq!(window.lines()[3], Line::new("l4", Style::Reversed));
    window.previous();
    assert_eq!(window.selected_line_index(), 6);
    assert_eq!(window.selected_line_index_relative(), 4);
    window.display_lines(&lines, 7);
    assert_eq!(texts_of(window.lines()), vec!["l7", "l6", "l5", "l4", "l3"]);
    assert_eq!(window.lines()[4], Line::new("l3", Style::Reversed));
}

#[test]
fn a_step_back_after_a_step_forward_moves_the_row_not_the_window() {
    let lines = numbered(5);
    let mut window = WindowState::new();
    window.display_lines(&lines, 5);
    assert_eq!(window.displayed_line_amount(), 3);
    for _ in 0..4 {
        window.previous();
    }
    assert_eq!(window.selected_line_index(), 3);
    assert_eq!(window.selected_line_index_relative(), 2);
    window.next();
    assert_eq!(window.selected_line_index(), 2);
    assert_eq!(window.selected_line_index_relative(), 1);
    window.previous();
    assert_eq!(window.selected_line_index(), 3);
    assert_eq!(window.selected_line_index_relative(), 2);
    window.display_lines(&lines, 5);
    assert_eq!(texts_of(window.lines()), vec!["l3", "l2", "l1"]);
    assert_eq!(window.lines()[2], Line::new("l1", Style::Reversed));
    assert_eq!(window.lines()[1].style, Style::Category(2));
    assert_eq!(window.selected_line(), Some(&Line::new("l1", Style::Category(1))));
}

#[test]
fn the_row_stays_on_the_last_row_while_the_window_scrolls() {
    let lines = numbered(8);
    let mut window = WindowState::new();
    window.display_lines(&lines, 5);
    let expected = [(0, 0), (1, 1), (2, 2), (3, 2), (4, 2), (5, 2), (6, 2), (7, 2), (7, 2)];
    for (index, row) in expected {
        window.previous();
        assert_eq!(window.selected_line_index(), index);
        assert_eq!(window.selected_line_index_relative(), row);
    }
    window.display_lines(&lines, 5);
    assert_eq!(texts_of(window.lines()), vec!["l2", "l1", "l0"]);
    assert_eq!(window.lines()[2], Line::new("l0", Style::Reversed));
    let back = [(6, 1), (5, 0), (4, 0), (3, 0)];
    for (index, row) in back {
        window.next();
        assert_eq!(window.selected_line_index(), index);
        assert_eq!(window.selected_line_index_relative(), row);
    }
    window.display_lines(&lines, 5);
    assert_eq!(texts_of(window.lines()), vec!["l4", "l3", "l2"]);
    assert_eq!(window.lines()[0], Line::new("l4", Style::Reversed));
    window.previous();
    assert_eq!(window.selected_line_index(), 4);
    assert_eq!(window.selected_line_index_relative(), 1);
}

#[test]
fn previous_stops_at_the_oldest_line() {
    let lines = numbered(3);
    let mut window = WindowState::new();
    window.display_lines(&lines, 7);
    for _ in 0..10 {
        window.previous();
        assert!(window.selected_line_index() <= window.line_count() - 1);
        assert!(window.selected_line_index_relative() <= window.displayed_line_amount() - 1);
    }
    assert_eq!(window.selected_line_index(), 2);
    assert_eq!(window.selected_line_index_relative(), 2);
    window.display_lines(&lines, 7);
    assert_eq!(window.selected_line(), Some(&Line::new("l0", Style::Category(0))));
}

#[test]
fn next_at_the_newest_line_changes_nothing() {
    let lines = numbered(3);
    let mut window = WindowState::new();
    window.display_lines(&lines, 7);
    window.next();
    assert!(!window.line_is_selected());
    assert_eq!(window.selected_line_index(), 0);
    window.previous();
    window.next();
    window.next();
    assert!(window.line_is_selected());
    assert_eq!(window.selected_line_index(), 0);
    assert_eq!(window.selected_line_index_relative(), 0);
}

#[test]
fn navigation_stays_in_bounds_for_any_sequence_of_steps() {
    let lines = numbered(6);
    let mut window = WindowState::new();
    window.display_lines(&lines, 5);
    let steps = [
        true, true, true, false, true, true, true, true, true, false, false, true, false, false,
        false, false, false, false, true, true,
    ];
    for step in steps {
        if step {
            window.previous();
        } else {
            window.next();
        }
        assert!(window.selected_line_index() <= 5);
        assert!(window.selected_line_index_relative() <= 2);
        assert!(window.selected_line_index_relative() <= window.selected_line_index());
    }
}

#[test]
fn previous_on_an_empty_sequence_selects_nothing() {
    let mut window = WindowState::new();
    window.previous();
    assert!(!window.line_is_selected());
    window.display_lines(&[], 10);
    window.previous();
    assert!(!window.line_is_selected());
    assert!(window.lines().is_empty());
}

#[test]
fn previous_on_a_single_line_selects_nothing() {
    let lines = numbered(1);
    let mut window = WindowState::new();
    window.display_lines(&lines, 10);
    window.previous();
    assert!(!window.line_is_selected());
    assert_eq!(window.selected_line_index(), 0);
}

#[test]
fn reset_clears_the_selection_and_is_idempotent() {
    let lines = numbered(10);
    let mut window = WindowState::new();
    window.display_lines(&lines, 7);
    for _ in 0..4 {
        window.previous();
    }
    window.reset();
    assert!(!window.line_is_selected());
    assert_eq!(window.selected_line_index(), 0);
    assert_eq!(window.selected_line_index_relative(), 0);
    window.reset();
    assert!(!window.line_is_selected());
    assert_eq!(window.selected_line_index(), 0);
    assert_eq!(window.selected_line_index_relative(), 0);
    assert_eq!(window.line_count(), 10);
    assert_eq!(window.displayed_line_amount(), 5);
}

#[test]
fn shrinking_the_window_clamps_the_selected_row() {
    let lines = numbered(10);
    let mut window = WindowState::new();
    window.display_lines(&lines, 7);
    for _ in 0..6 {
        window.previous();
    }
    assert_eq!(window.selected_line_index(), 5);
    assert_eq!(window.selected_line_index_relative(), 4);
    window.display_lines(&lines, 4);
    assert_eq!(window.displayed_line_amount(), 2);
    assert_eq!(window.selected_line_index_relative(), 1);
    assert_eq!(texts_of(window.lines()), vec!["l5", "l4"]);
    assert_eq!(window.lines()[1], Line::new("l4", Style::Reversed));
    assert_eq!(window.selected_line(), Some(&Line::new("l4", Style::Category(1))));
}

#[test]
fn window_below_minimum_height_shows_nothing() {
    let lines = numbered(10);
    for height in 0..3 {
        let mut window = WindowState::new();
        window.display_lines(&lines, 7);
        for _ in 0..4 {
            window.previous();
        }
        window.display_lines(&lines, height);
        assert_eq!(window.displayed_line_amount(), 0);
        assert_eq!(window.selected_line_index_relative(), 0);
        assert_eq!(window.selected_line_index(), 3);
        assert!(window.lines().is_empty());
        window.previous();
        window.next();
        assert_eq!(window.selected_line_index_relative(), 0);
    }
}

#[test]
fn window_of_one_row_keeps_the_selection_on_it() {
    let lines = numbered(4);
    let mut window = WindowState::new();
    window.display_lines(&lines, 3);
    assert_eq!(window.displayed_line_amount(), 1);
    window.previous();
    window.previous();
    window.previous();
    assert_eq!(window.selected_line_index(), 2);
    assert_eq!(window.selected_line_index_relative(), 0);
    window.display_lines(&lines, 3);
    assert_eq!(window.lines().len(), 1);
    assert_eq!(window.lines()[0], Line::new("l1", Style::Reversed));
}

#[test]
fn a_sequence_that_shrank_is_rendered_without_a_selected_row() {
    let lines = numbered(10);
    let mut window = WindowState::new();
    window.display_lines(&lines, 7);
    for _ in 0..8 {
        window.previous();
    }
    window.display_lines(&lines, 7);
    assert_eq!(window.selected_line(), Some(&Line::new("l2", Style::Category(2))));
    let fewer = numbered(2);
    window.display_lines(&fewer, 7);
    assert_eq!(window.line_count(), 2);
    assert!(window.lines().is_empty());
    assert_eq!(window.selected_line(), Some(&Line::new("l2", Style::Category(2))));
}

#[test]
fn selection_keeps_its_distance_from_the_newest_line() {
    let mut lines = numbered(4);
    let mut window = WindowState::new();
    window.display_lines(&lines, 7);
    window.previous();
    window.previous();
    window.display_lines(&lines, 7);
    assert_eq!(window.selected_line(), Some(&Line::new("l2", Style::Category(2))));
    lines.push(Line::new("l4", Style::Category(1)));
    window.display_lines(&lines, 7);
    assert_eq!(window.selected_line_index(), 1);
    assert_eq!(texts_of(window.lines()), vec!["l4", "l3", "l2", "l1", "l0"]);
    assert_eq!(window.lines()[1].style, Style::Reversed);
    assert_eq!(window.selected_line(), Some(&Line::new("l3", Style::Category(0))));
}
