//! The editor's command loop state: what one raw input event does to it.

use vstd::prelude::*;
use vstd::view::View as _;
use crate::command::{decoded, EditorCommand, InputEvent};
use crate::location::Location;
use crate::size::Size;
use crate::view::{after_command, View};

verus! {

/// The state the controller loop carries: whether a quit was requested, and
/// the viewport everything else acts on.
#[derive(Debug)]
pub struct Editor {
    pub should_quit: bool,
    pub view: View,
}

/// The editor after one raw input event: a quit command requests termination,
/// any other command goes to the viewport, and an event that decodes to no
/// command is dropped.
pub open spec fn after_event(e: Editor, event: InputEvent) -> Editor {
    match decoded(event) {
        Ok(EditorCommand::Quit) => Editor { should_quit: true, ..e },
        Ok(c) => Editor { view: after_command(e.view, c), ..e },
        Err(_) => e,
    }
}

impl Editor {
    /// A fresh editor over an empty buffer, for a terminal of the given size.
    pub fn new(size: Size) -> (r: Self)
        ensures
            r.should_quit == false,
            r.view.buffer@ == Seq::<Seq<char>>::empty(),
            r.view.needs_redraw == true,
            r.view.size == size,
            r.view.location == (Location { x: 0, y: 0 }),
            r.view.scroll_offset == (Location { x: 0, y: 0 }),
    {
        Editor { should_quit: false, view: View::new(size) }
    }

    /// Evaluates one raw input event: decodes it and applies the decoded
    /// command, dropping unsupported events.
    pub fn evaluate_event(&mut self, event: InputEvent)
        ensures
            *final(self) == after_event(*old(self), event),
    {
        match EditorCommand::try_from_event(event) {
            Ok(EditorCommand::Quit) => {
                self.should_quit = true;
            },
            Ok(command) => {
                self.view.handle_command(command);
            },
            Err(_) => {},
        }
    }
}

} // verus!
