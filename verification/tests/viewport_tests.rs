use hecto::command::{Direction, EditorCommand};
use hecto::location::{Location, Position};
use hecto::size::Size;
use hecto::view::View;

fn mv(view: &mut View, direction: Direction) {
    view.handle_command(EditorCommand::Move(direction));
}

#[test]
fn right_clamps_at_last_column() {
    // cursor at (0,0), viewport 10x5: Right saturates at width - 1 = 9
    let mut view = View::new(Size { width: 10, height: 5 });
    for _ in 0..5 {
        mv(&mut view, Direction::Right);
    }
    assert_eq!(view.location, Location { x: 5, y: 0 });
    for _ in 0..4 {
        mv(&mut view, Direction::Right);
    }
    assert_eq!(view.location, Location { x: 9, y: 0 });
    for _ in 0..5 {
        mv(&mut view, Direction::Right);
    }
    assert_eq!(view.location, Location { x: 9, y: 0 });
    assert_eq!(view.scroll_offset, Location { x: 0, y: 0 });
}

#[test]
fn moves_saturate_at_zero() {
    let mut view = View::new(Size { width: 10, height: 5 });
    mv(&mut view, Direction::Left);
    mv(&mut view, Direction::Up);
    assert_eq!(view.location, Location { x: 0, y: 0 });
    assert_eq!(view.get_position(), Position { col: 0, row: 0 });
}

#[test]
fn home_end_pageup_pagedown_jump_to_edges() {
    let mut view = View::new(Size { width: 10, height: 5 });
    mv(&mut view, Direction::End);
    assert_eq!(view.location.x, 9);
    mv(&mut view, Direction::Home);
    assert_eq!(view.location.x, 0);
    mv(&mut view, Direction::PageDown);
    assert_eq!(view.location.y, 4);
    mv(&mut view, Direction::PageUp);
    assert_eq!(view.location.y, 0);
}

#[test]
fn scrolling_keeps_cursor_inside_window() {
    let mut view = View::new(Size { width: 10, height: 5 });
    for _ in 0..10 {
        mv(&mut view, Direction::Down);
    }
    assert_eq!(view.location.y, 10);
    // minimal forward scroll: cursor on the last visible row
    assert_eq!(view.scroll_offset.y, 6);
    assert!(view.scroll_offset.y <= view.location.y);
    assert!(view.location.y < view.scroll_offset.y + 5);
    assert_eq!(view.get_position(), Position { col: 0, row: 4 });
    // scrolling back up reveals the cursor again with minimal movement
    for _ in 0..7 {
        mv(&mut view, Direction::Up);
    }
    assert_eq!(view.location.y, 3);
    assert_eq!(view.scroll_offset.y, 3);
}

#[test]
fn move_inside_window_leaves_offset_and_flag_alone() {
    let mut view = View::new(Size { width: 10, height: 5 });
    view.render();
    assert!(!view.needs_redraw);
    mv(&mut view, Direction::Right);
    assert_eq!(view.scroll_offset, Location { x: 0, y: 0 });
    assert!(!view.needs_redraw);
}

#[test]
fn pending_redraw_survives_an_in_view_move() {
    // a fresh view has a repaint pending; a move that does not scroll must
    // not erase it: only a render clears the flag
    let mut view = View::new(Size { width: 10, height: 5 });
    assert!(view.needs_redraw);
    mv(&mut view, Direction::Right);
    assert_eq!(view.scroll_offset, Location { x: 0, y: 0 });
    assert!(view.needs_redraw);
}

#[test]
fn resize_always_sets_redraw_flag() {
    let mut view = View::new(Size { width: 10, height: 5 });
    view.render();
    assert!(!view.needs_redraw);
    view.handle_command(EditorCommand::Resize(Size { width: 10, height: 5 }));
    assert!(view.needs_redraw);
}

#[test]
fn repeated_render_is_a_noop() {
    let mut view = View::new(Size { width: 10, height: 5 });
    assert!(view.render().is_some());
    assert!(!view.needs_redraw);
    assert!(view.render().is_none());
}

#[test]
fn degenerate_size_renders_nothing() {
    let mut view = View::new(Size { width: 0, height: 0 });
    assert!(view.needs_redraw);
    assert!(view.render().is_none());
    assert!(view.needs_redraw);
}

#[test]
fn quit_changes_no_viewport_state() {
    let mut view = View::new(Size { width: 10, height: 5 });
    mv(&mut view, Direction::Right);
    let location = view.location;
    let offset = view.scroll_offset;
    let size = view.size;
    let flag = view.needs_redraw;
    view.handle_command(EditorCommand::Quit);
    assert_eq!(view.location, location);
    assert_eq!(view.scroll_offset, offset);
    assert_eq!(view.size, size);
    assert_eq!(view.needs_redraw, flag);
}

#[test]
fn empty_buffer_renders_tildes_and_centered_welcome() {
    // empty buffer, size 80x24: row 24 / 3 = 8 carries the message
    let mut view = View::new(Size { width: 80, height: 24 });
    let rows = view.render().expect("a first render paints");
    assert_eq!(rows.len(), 24);
    let expected = format!("~{}hecto editor -- version 0.1.0", " ".repeat(25));
    assert!(expected.len() <= 80);
    for (i, row) in rows.iter().enumerate() {
        if i == 8 {
            assert_eq!(row, &expected);
        } else {
            assert_eq!(row, "~");
        }
    }
}

#[test]
fn welcome_message_shapes() {
    assert_eq!(View::build_welcome_message(0), "");
    // narrower than the message: a bare tilde
    assert_eq!(View::build_welcome_message(29), "~");
    // one wider than the message: no room for padding
    assert_eq!(View::build_welcome_message(30), "~hecto editor -- version 0.1.0");
    assert_eq!(
        View::build_welcome_message(33),
        "~ hecto editor -- version 0.1.0"
    );
}

#[test]
fn load_replaces_buffer_and_forces_repaint() {
    let mut view = View::new(Size { width: 80, height: 4 });
    view.render();
    view.load(Some("hello\nworld"));
    assert!(view.needs_redraw);
    let rows = view.render().expect("a repaint after load");
    assert_eq!(rows, vec!["hello", "world", "~", "~"]);
}

#[test]
fn failed_load_keeps_previous_contents() {
    let mut view = View::new(Size { width: 80, height: 4 });
    view.load(Some("kept\nlines"));
    view.render();
    view.load(None);
    assert_eq!(view.buffer.lines.len(), 2);
    assert!(!view.needs_redraw);
    view.handle_command(EditorCommand::Resize(Size { width: 80, height: 4 }));
    let rows = view.render().expect("a repaint after resize");
    assert_eq!(rows, vec!["kept", "lines", "~", "~"]);
}

#[test]
fn rendering_clips_lines_to_the_visible_window() {
    let mut view = View::new(Size { width: 3, height: 2 });
    view.load(Some("abcdef\nxy"));
    let rows = view.render().expect("a repaint after load");
    assert_eq!(rows, vec!["abc", "xy"]);
    // shrink the window so the cursor at column 2 forces a horizontal scroll
    mv(&mut view, Direction::End);
    view.handle_command(EditorCommand::Resize(Size { width: 2, height: 2 }));
    assert_eq!(view.scroll_offset, Location { x: 1, y: 0 });
    let rows = view.render().expect("a repaint after resize");
    assert_eq!(rows, vec!["bc", "y"]);
}

#[test]
fn vertical_scroll_shows_later_lines() {
    let mut view = View::new(Size { width: 10, height: 2 });
    view.load(Some("one\ntwo\nthree\nfour"));
    for _ in 0..3 {
        mv(&mut view, Direction::Down);
    }
    assert_eq!(view.scroll_offset.y, 2);
    let rows = view.render().expect("a repaint after scrolling");
    assert_eq!(rows, vec!["three", "four"]);
}

#[test]
fn get_position_is_cursor_minus_offset() {
    let mut view = View::new(Size { width: 4, height: 3 });
    view.load(Some("aaaa\nbbbb\ncccc\ndddd\neeee"));
    for _ in 0..4 {
        mv(&mut view, Direction::Down);
    }
    mv(&mut view, Direction::Right);
    assert_eq!(view.location, Location { x: 1, y: 4 });
    assert_eq!(view.scroll_offset, Location { x: 0, y: 2 });
    assert_eq!(view.get_position(), Position { col: 1, row: 2 });
}
