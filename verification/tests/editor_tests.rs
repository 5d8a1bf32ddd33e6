use hecto::command::{InputEvent, KeyCode};
use hecto::editor::Editor;
use hecto::location::Location;
use hecto::size::Size;

#[test]
fn ctrl_q_requests_quit() {
    let mut editor = Editor::new(Size { width: 10, height: 5 });
    assert!(!editor.should_quit);
    editor.evaluate_event(InputEvent::Key { code: KeyCode::Char('q'), ctrl_only: true });
    assert!(editor.should_quit);
}

#[test]
fn unsupported_events_change_nothing() {
    let mut editor = Editor::new(Size { width: 10, height: 5 });
    editor.evaluate_event(InputEvent::Other);
    editor.evaluate_event(InputEvent::Key { code: KeyCode::Char('q'), ctrl_only: false });
    assert!(!editor.should_quit);
    assert_eq!(editor.view.location, Location { x: 0, y: 0 });
}

#[test]
fn movement_events_reach_the_viewport() {
    let mut editor = Editor::new(Size { width: 10, height: 5 });
    editor.evaluate_event(InputEvent::Key { code: KeyCode::Right, ctrl_only: false });
    editor.evaluate_event(InputEvent::Key { code: KeyCode::Down, ctrl_only: false });
    assert_eq!(editor.view.location, Location { x: 1, y: 1 });
    assert!(!editor.should_quit);
}

#[test]
fn resize_events_reach_the_viewport() {
    let mut editor = Editor::new(Size { width: 10, height: 5 });
    editor.evaluate_event(InputEvent::Resize { width: 120, height: 40 });
    assert_eq!(editor.view.size, Size { width: 120, height: 40 });
    assert!(editor.view.needs_redraw);
}
