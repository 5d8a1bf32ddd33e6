//! The viewport: the scrollable window that couples the text buffer, the
//! logical cursor and the terminal surface, and decides what each visible row
//! shows and whether a repaint is needed.

use vstd::prelude::*;
use vstd::string::{StrSliceExecFns, StringExecFns};
use vstd::view::View as _;
use crate::buffer::{lines_of, Buffer};
use crate::command::{Direction, EditorCommand};
use crate::line::line_get;
use crate::location::{Location, Position};
use crate::size::Size;

verus! {

/// The program name and version shown on the placeholder row of an empty
/// buffer.
pub open spec fn welcome_text() -> Seq<char> {
    "hecto editor -- version 0.1.0"@
}

/// `n` spaces.
pub open spec fn spaces(n: nat) -> Seq<char> {
    Seq::new(n, |i: int| ' ')
}

/// The placeholder row of an empty buffer at the given width: nothing on a
/// degenerate terminal, a bare tilde where the message does not fit, and
/// otherwise a tilde, padding spaces centering the message, and the message.
pub open spec fn welcome_line(width: usize) -> Seq<char> {
    if width == 0 {
        Seq::empty()
    } else if width <= welcome_text().len() {
        seq!['~']
    } else {
        seq!['~'] + spaces(((width - welcome_text().len() - 1) / 2) as nat) + welcome_text()
    }
}

/// The placeholder row never overflows the terminal width.
pub proof fn lemma_welcome_line_fits(width: usize)
    ensures
        welcome_line(width).len() <= width,
{
    if width > welcome_text().len() {
        let d = width - welcome_text().len() - 1;
        assert(d / 2 <= d);
    }
}

/// Where the cursor stands after one movement, in the viewport whose size is
/// `size`: vertical movement saturates at zero and is unbounded above by the
/// buffer; horizontal movement saturates at zero and is clamped to the last
/// column of the viewport; Home, End, PageUp and PageDown jump to the
/// absolute first and last column and row of the visible extent.
pub open spec fn moved_location(loc: Location, size: Size, d: Direction) -> Location {
    match d {
        Direction::Up => Location { x: loc.x, y: loc.y.saturating_sub(1) },
        Direction::Down => Location { x: loc.x, y: loc.y.saturating_add(1) },
        Direction::Left => Location { x: loc.x.saturating_sub(1), y: loc.y },
        Direction::Right => Location {
            x: {
                let nx = loc.x.saturating_add(1);
                let cap = size.width.saturating_sub(1);
                if nx < cap {
                    nx
                } else {
                    cap
                }
            },
            y: loc.y,
        },
        Direction::PageUp => Location { x: loc.x, y: 0 },
        Direction::PageDown => Location { x: loc.x, y: size.height.saturating_sub(1) },
        Direction::Home => Location { x: 0, y: loc.y },
        Direction::End => Location { x: size.width.saturating_sub(1), y: loc.y },
    }
}

/// Whether one axis of the viewport must scroll to reveal the cursor: the
/// cursor lies before the offset or at or past the far edge of the visible
/// extent.
pub open spec fn axis_scrolls(offset: usize, cursor: usize, extent: usize) -> bool {
    cursor < offset || cursor >= offset.saturating_add(extent)
}

/// The minimal-scroll reconciliation of one axis: scroll backward exactly to
/// the cursor, or forward the minimum amount that brings the cursor onto the
/// last visible cell; an axis that already shows the cursor keeps its offset.
pub open spec fn scrolled(offset: usize, cursor: usize, extent: usize) -> usize {
    if cursor < offset {
        cursor
    } else if cursor >= offset.saturating_add(extent) {
        cursor.saturating_sub(extent).saturating_add(1)
    } else {
        offset
    }
}

/// The viewport after scroll reconciliation: both axes reconciled
/// independently, and the redraw flag set when some axis had to scroll. The
/// flag marks visible content that differs from what was last painted, so
/// reconciliation may only set it, never clear it: only a render clears a
/// pending redraw.
pub open spec fn reconciled(v: View) -> View {
    View {
        scroll_offset: Location {
            x: scrolled(v.scroll_offset.x, v.location.x, v.size.width),
            y: scrolled(v.scroll_offset.y, v.location.y, v.size.height),
        },
        needs_redraw: v.needs_redraw || axis_scrolls(v.scroll_offset.x, v.location.x, v.size.width)
            || axis_scrolls(v.scroll_offset.y, v.location.y, v.size.height),
        ..v
    }
}

/// The viewport after one Move command: the cursor moves, then scrolling is
/// reconciled.
pub open spec fn after_move(v: View, d: Direction) -> View {
    reconciled(View { location: moved_location(v.location, v.size, d), ..v })
}

/// The viewport after a Resize command: the size is replaced, scrolling is
/// reconciled against the new rectangle, and a redraw is always forced.
pub open spec fn after_resize(v: View, to: Size) -> View {
    View { needs_redraw: true, ..reconciled(View { size: to, ..v }) }
}

/// The viewport after any command; Quit changes no viewport state.
pub open spec fn after_command(v: View, c: EditorCommand) -> View {
    match c {
        EditorCommand::Move(d) => after_move(v, d),
        EditorCommand::Resize(s) => after_resize(v, s),
        EditorCommand::Quit => v,
    }
}

/// What row `r` of the visible window shows: the visible slice of the
/// buffer's line at `r` plus the vertical scroll offset if there is one, the
/// centered placeholder on the vertical third of an empty buffer, and a tilde
/// on every row past the end of the buffer.
pub open spec fn row_text(v: View, r: int) -> Seq<char> {
    if r + v.scroll_offset.y < v.buffer@.len() {
        line_get(
            v.buffer@[r + v.scroll_offset.y],
            v.scroll_offset.x as int,
            v.scroll_offset.x + v.size.width,
        )
    } else if v.buffer@.len() == 0 && r == v.size.height as int / 3 {
        welcome_line(v.size.width)
    } else {
        seq!['~']
    }
}

/// The state machine at the core of the viewer: a buffer, a cursor in
/// unbounded buffer coordinates, the top-left visible logical coordinate, the
/// terminal size, and whether the visible rectangle differs from what was
/// last painted.
#[derive(Debug)]
pub struct View {
    pub buffer: Buffer,
    pub needs_redraw: bool,
    pub size: Size,
    pub location: Location,
    pub scroll_offset: Location,
}

impl View {
    /// An empty viewport of the given size, with everything still to paint.
    pub fn new(size: Size) -> (r: Self)
        ensures
            r.buffer@ == Seq::<Seq<char>>::empty(),
            r.needs_redraw == true,
            r.size == size,
            r.location == (Location { x: 0, y: 0 }),
            r.scroll_offset == (Location { x: 0, y: 0 }),
    {
        View {
            buffer: Buffer::default(),
            needs_redraw: true,
            size,
            location: Location::default(),
            scroll_offset: Location::default(),
        }
    }

    /// Applies one decoded command to the viewport.
    pub fn handle_command(&mut self, command: EditorCommand)
        ensures
            *final(self) == after_command(*old(self), command),
    {
        match command {
            EditorCommand::Move(direction) => self.move_text_location(&direction),
            EditorCommand::Resize(size) => self.resize(size),
            EditorCommand::Quit => {},
        }
    }

    /// Replaces the buffer with freshly loaded file contents and forces a
    /// repaint; a failed load (`None`) is a no-op, the current contents stay.
    pub fn load(&mut self, contents: Option<&str>)
        ensures
            match contents {
                None => *final(self) == *old(self),
                Some(text) => {
                    &&& final(self).buffer@ == lines_of(text@)
                    &&& final(self).needs_redraw == true
                    &&& final(self).size == old(self).size
                    &&& final(self).location == old(self).location
                    &&& final(self).scroll_offset == old(self).scroll_offset
                },
            },
    {
        if let Some(text) = contents {
            self.buffer = Buffer::build(text);
            self.needs_redraw = true;
        }
    }

    /// The terminal cell the cursor occupies: its location minus the scroll
    /// offset, non-negative whenever scrolling has been reconciled.
    pub fn get_position(&self) -> (r: Position)
        ensures
            r == (Position {
                col: self.location.x.saturating_sub(self.scroll_offset.x),
                row: self.location.y.saturating_sub(self.scroll_offset.y),
            }),
    {
        Position::from(self.location.subtract(&self.scroll_offset))
    }

    fn move_text_location(&mut self, direction: &Direction)
        ensures
            *final(self) == after_move(*old(self), *direction),
            final(self).location.x >= 0,
            final(self).location.y >= 0,
            ({
                let m = moved_location(old(self).location, old(self).size, *direction);
                let off = old(self).scroll_offset;
                &&& off.x + old(self).size.width <= usize::MAX
                &&& off.y + old(self).size.height <= usize::MAX
                &&& off.x <= m.x < off.x + old(self).size.width
                &&& off.y <= m.y < off.y + old(self).size.height
            }) ==> final(self).scroll_offset == old(self).scroll_offset && final(self).needs_redraw
                == old(self).needs_redraw,
    {
        let mut x = self.location.x;
        let mut y = self.location.y;
        let height = self.size.height;
        let width = self.size.width;
        match direction {
            Direction::Up => {
                y = y.saturating_sub(1);
            },
            Direction::Down => {
                y = y.saturating_add(1);
            },
            Direction::Left => {
                x = x.saturating_sub(1);
            },
            Direction::Right => {
                let nx = x.saturating_add(1);
                let cap = width.saturating_sub(1);
                x = if nx < cap {
                    nx
                } else {
                    cap
                };
            },
            Direction::PageUp => {
                y = 0;
            },
            Direction::PageDown => {
                y = height.saturating_sub(1);
            },
            Direction::Home => {
                x = 0;
            },
            Direction::End => {
                x = width.saturating_sub(1);
            },
        }
        self.location = Location { x, y };
        self.scroll_location_into_view();
    }

    fn resize(&mut self, to: Size)
        ensures
            *final(self) == after_resize(*old(self), to),
            final(self).needs_redraw == true,
            final(self).size == to,
            final(self).location == old(self).location,
            final(self).buffer == old(self).buffer,
            to.width > 0 ==> final(self).scroll_offset.x <= final(self).location.x
                < final(self).scroll_offset.x + to.width,
            to.height > 0 ==> final(self).scroll_offset.y <= final(self).location.y
                < final(self).scroll_offset.y + to.height,
    {
        self.size = to;
        self.scroll_location_into_view();
        self.needs_redraw = true;
    }

    fn scroll_location_into_view(&mut self)
        ensures
            *final(self) == reconciled(*old(self)),
            final(self).location == old(self).location,
            final(self).size == old(self).size,
            final(self).buffer == old(self).buffer,
            old(self).needs_redraw ==> final(self).needs_redraw,
            old(self).size.width > 0 ==> final(self).scroll_offset.x <= old(self).location.x
                < final(self).scroll_offset.x + old(self).size.width,
            old(self).size.height > 0 ==> final(self).scroll_offset.y <= old(self).location.y
                < final(self).scroll_offset.y + old(self).size.height,
    {
        let x = self.location.x;
        let y = self.location.y;
        let height = self.size.height;
        let width = self.size.width;
        let mut offset_changed = false;

        // Scroll vertically
        if y < self.scroll_offset.y {
            self.scroll_offset.y = y;
            offset_changed = true;
        } else if y >= self.scroll_offset.y.saturating_add(height) {
            self.scroll_offset.y = y.saturating_sub(height).saturating_add(1);
            offset_changed = true;
        }

        // Scroll horizontally
        if x < self.scroll_offset.x {
            self.scroll_offset.x = x;
            offset_changed = true;
        } else if x >= self.scroll_offset.x.saturating_add(width) {
            self.scroll_offset.x = x.saturating_sub(width).saturating_add(1);
            offset_changed = true;
        }

        if offset_changed {
            self.needs_redraw = true;
        }
        proof {
            if old(self).size.width > 0 {
                lemma_scrolled_axis_in_view(
                    old(self).scroll_offset.x,
                    old(self).location.x,
                    old(self).size.width,
                );
            }
            if old(self).size.height > 0 {
                lemma_scrolled_axis_in_view(
                    old(self).scroll_offset.y,
                    old(self).location.y,
                    old(self).size.height,
                );
            }
        }
    }

    /// The placeholder message for an empty buffer, centered by tilde-and-
    /// space padding and truncated to the given width.
    pub fn build_welcome_message(width: usize) -> (r: String)
        ensures
            r@ == welcome_line(width),
    {
        if width == 0 {
            return String::new();
        }
        let msg = "hecto editor -- version 0.1.0";
        let len = msg.unicode_len();
        if width <= len {
            let r = "~".to_owned();
            proof {
                reveal_strlit("~");
                assert(r@ =~= seq!['~']);
            }
            return r;
        }
        let padding = (width - len - 1) / 2;
        let mut full = "~".to_owned();
        proof {
            reveal_strlit("~");
            assert(full@ =~= seq!['~'] + spaces(0));
        }
        let mut k: usize = 0;
        while k < padding
            invariant
                k <= padding,
                full@ == seq!['~'] + spaces(k as nat),
            decreases padding - k,
        {
            full.append(" ");
            proof {
                reveal_strlit(" ");
                assert(seq!['~'] + spaces(k as nat) + " "@ =~= seq!['~'] + spaces((k + 1) as nat));
            }
            k = k + 1;
        }
        full.append(msg);
        proof {
            assert(full@ =~= welcome_line(width));
        }
        full
    }

    /// Paints the visible window: one string per visible row, top to bottom,
    /// as `row_text` gives them. Returns nothing, and changes nothing, when
    /// no repaint is needed or the terminal is degenerate; otherwise clears
    /// the redraw flag.
    pub fn render(&mut self) -> (r: Option<Vec<String>>)
        ensures
            !old(self).needs_redraw ==> r is None && *final(self) == *old(self),
            old(self).needs_redraw && (old(self).size.width == 0 || old(self).size.height == 0)
                ==> r is None && *final(self) == *old(self),
            old(self).needs_redraw && old(self).size.width > 0 && old(self).size.height > 0 ==> {
                &&& r is Some
                &&& r->Some_0@.len() == old(self).size.height
                &&& forall|i: int|
                    0 <= i < old(self).size.height ==> (#[trigger] r->Some_0@[i])@ == row_text(
                        *old(self),
                        i,
                    )
                &&& *final(self) == (View { needs_redraw: false, ..*old(self) })
            },
    {
        if !self.needs_redraw {
            return None;
        }
        let height = self.size.height;
        let width = self.size.width;
        if height == 0 || width == 0 {
            return None;
        }
        let vertical_center = height / 3;
        let top = self.scroll_offset.y;
        let left = self.scroll_offset.x;
        let right = left.saturating_add(width);
        let mut rows: Vec<String> = Vec::new();
        let mut cur_row: usize = 0;
        while cur_row < height
            invariant
                *self == *old(self),
                self.needs_redraw,
                height == self.size.height,
                width == self.size.width,
                width > 0,
                vertical_center == height as int / 3,
                top == self.scroll_offset.y,
                left == self.scroll_offset.x,
                right == left.saturating_add(width),
                cur_row <= height,
                rows@.len() == cur_row,
                forall|i: int|
                    0 <= i < cur_row ==> (#[trigger] rows@[i])@ == row_text(*self, i),
            decreases height - cur_row,
        {
            let idx = cur_row.saturating_add(top);
            let row_string: String;
            if idx < self.buffer.lines.len() {
                proof {
                    assert(self.buffer@[idx as int] == self.buffer.lines@[idx as int]@);
                }
                row_string = self.buffer.lines[idx].get(left..right);
                proof {
                    assert(line_get(self.buffer@[idx as int], left as int, right as int)
                        == line_get(self.buffer@[idx as int], left as int, left + width));
                }
            } else if cur_row == vertical_center && self.buffer.is_empty() {
                row_string = Self::build_welcome_message(width);
            } else {
                row_string = "~".to_owned();
                proof {
                    reveal_strlit("~");
                    assert(row_string@ =~= seq!['~']);
                }
            }
            rows.push(row_string);
            cur_row = cur_row + 1;
        }
        self.needs_redraw = false;
        Some(rows)
    }
}

/// Every visible row fits the terminal: whatever it shows, a line slice, the
/// placeholder or a tilde, is at most `width` characters.
pub proof fn lemma_row_text_fits(v: View, r: int)
    requires
        v.size.width > 0,
    ensures
        row_text(v, r).len() <= v.size.width,
{
    lemma_welcome_line_fits(v.size.width);
}

/// Where the cursor stands after a sequence of Move commands, applied in a
/// viewport of one unchanging size.
pub open spec fn apply_moves(loc: Location, size: Size, ds: Seq<Direction>) -> Location
    decreases ds.len(),
{
    if ds.len() == 0 {
        loc
    } else {
        apply_moves(moved_location(loc, size, ds[0]), size, ds.skip(1))
    }
}

/// For all sequences of Move commands, both cursor coordinates stay
/// non-negative: every movement saturates at zero and never underflows.
pub proof fn lemma_moves_never_underflow(loc: Location, size: Size, ds: Seq<Direction>)
    ensures
        apply_moves(loc, size, ds).x >= 0,
        apply_moves(loc, size, ds).y >= 0,
    decreases ds.len(),
{
    if ds.len() > 0 {
        lemma_moves_never_underflow(moved_location(loc, size, ds[0]), size, ds.skip(1));
    }
}

/// Reconciling one axis always brings the cursor into the visible extent:
/// afterwards `offset <= cursor < offset + extent`, whenever the extent is
/// positive.
pub proof fn lemma_scrolled_axis_in_view(offset: usize, cursor: usize, extent: usize)
    requires
        extent > 0,
    ensures
        scrolled(offset, cursor, extent) <= cursor,
        cursor < scrolled(offset, cursor, extent) + extent,
{
}

/// For all cursor positions and viewport sizes, after reconciliation the
/// scroll offset bounds the cursor on both axes:
/// `scroll_offset <= cursor < scroll_offset + extent`, whenever both extents
/// are positive.
pub proof fn lemma_reconciled_keeps_cursor_visible(v: View)
    requires
        v.size.width > 0,
        v.size.height > 0,
    ensures
        reconciled(v).scroll_offset.x <= v.location.x,
        v.location.x < reconciled(v).scroll_offset.x + v.size.width,
        reconciled(v).scroll_offset.y <= v.location.y,
        v.location.y < reconciled(v).scroll_offset.y + v.size.height,
{
    lemma_scrolled_axis_in_view(v.scroll_offset.x, v.location.x, v.size.width);
    lemma_scrolled_axis_in_view(v.scroll_offset.y, v.location.y, v.size.height);
}

/// Minimal-scroll: a single Move that keeps the cursor inside the current
/// visible rectangle leaves the scroll offset unchanged, and leaves the
/// redraw flag exactly as it was: it forces no repaint and erases no pending
/// one. (The rectangle's far edges must be representable coordinates.)
pub proof fn lemma_minimal_scroll(v: View, d: Direction)
    requires
        v.scroll_offset.x + v.size.width <= usize::MAX,
        v.scroll_offset.y + v.size.height <= usize::MAX,
        v.scroll_offset.x <= moved_location(v.location, v.size, d).x,
        moved_location(v.location, v.size, d).x < v.scroll_offset.x + v.size.width,
        v.scroll_offset.y <= moved_location(v.location, v.size, d).y,
        moved_location(v.location, v.size, d).y < v.scroll_offset.y + v.size.height,
    ensures
        after_move(v, d).scroll_offset == v.scroll_offset,
        after_move(v, d).needs_redraw == v.needs_redraw,
{
}

} // verus!
