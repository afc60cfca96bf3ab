//! The overlay bubble's geometry and visibility: where it sits (as margins
//! from the top-right corner of the screen), how large it is, whether it is
//! shown, and how a drag moves it.
use vstd::prelude::*;

verus! {

/// The side length the overlay starts with.
pub const DEFAULT_SIZE: u32 = 200;

/// The largest right margin a drag can reach.
pub const MAX_RIGHT: i32 = 3840;

/// The largest top margin a drag can reach.
pub const MAX_TOP: i32 = 2160;

/// Where the overlay sits when no position was saved: (right, top) margins.
pub open spec fn default_position() -> (i32, i32) {
    (20, 50)
}

/// `v` held within `lo ..= hi`.
pub open spec fn clamp_spec(v: int, lo: int, hi: int) -> int {
    if v < lo {
        lo
    } else if v > hi {
        hi
    } else {
        v
    }
}

/// The margins a drag moves the overlay to: rightward motion shrinks the
/// right margin, downward motion grows the top margin, both kept on screen.
pub open spec fn dragged_spec(start: (i32, i32), dx: i32, dy: i32) -> (i32, i32) {
    (
        clamp_spec(start.0 - dx, 0, MAX_RIGHT as int) as i32,
        clamp_spec(start.1 + dy, 0, MAX_TOP as int) as i32,
    )
}

/// Whether a drag from `start` by `(dx, dy)` stays within `i32` arithmetic.
pub open spec fn drag_in_range(start: (i32, i32), dx: i32, dy: i32) -> bool {
    i32::MIN <= start.0 - dx <= i32::MAX && i32::MIN <= start.1 + dy <= i32::MAX
}

fn clamp(v: i32, lo: i32, hi: i32) -> (r: i32)
    requires
        lo <= hi,
    ensures
        r == clamp_spec(v as int, lo as int, hi as int),
{
    if v < lo {
        lo
    } else if v > hi {
        hi
    } else {
        v
    }
}

/// The overlay window's state: side length, visibility, position as
/// (right, top) margins, and the position a drag started from.
#[derive(Debug, Clone, Copy, PartialEq, Eq)]
pub struct OverlayWindow {
    pub size: u32,
    pub visible: bool,
    pub position: (i32, i32),
    pub drag_start: (i32, i32),
}

impl OverlayWindow {
    /// A hidden overlay of the default size at the saved position, or at the
    /// default one when none was saved.
    pub fn new(saved_position: Option<(i32, i32)>) -> (r: OverlayWindow)
        ensures
            r.size == DEFAULT_SIZE,
            !r.visible,
            r.position == match saved_position {
                Some(p) => p,
                None => default_position(),
            },
            r.drag_start == (0i32, 0i32),
    {
        let position = match saved_position {
            Some(p) => p,
            None => (20, 50),
        };
        OverlayWindow { size: DEFAULT_SIZE, visible: false, position, drag_start: (0, 0) }
    }

    /// Show or hide the overlay. When it is shown, the margins to restore are
    /// returned: its current position.
    pub fn set_visible(&mut self, visible: bool) -> (restore: Option<(i32, i32)>)
        ensures
            final(self).visible == visible,
            final(self).size == old(self).size,
            final(self).position == old(self).position,
            final(self).drag_start == old(self).drag_start,
            restore == if visible {
                Some(old(self).position)
            } else {
                None
            },
    {
        self.visible = visible;
        if visible {
            Some(self.position)
        } else {
            None
        }
    }

    /// Change the side length.
    pub fn set_size(&mut self, size: u32)
        ensures
            final(self).size == size,
            final(self).visible == old(self).visible,
            final(self).position == old(self).position,
            final(self).drag_start == old(self).drag_start,
    {
        self.size = size;
    }

    /// The current (right, top) margins.
    pub fn get_position(&self) -> (p: (i32, i32))
        ensures
            p == self.position,
    {
        self.position
    }

    /// A drag begins: remember where the overlay is.
    pub fn begin_drag(&mut self)
        ensures
            final(self).drag_start == old(self).position,
            final(self).position == old(self).position,
            final(self).size == old(self).size,
            final(self).visible == old(self).visible,
    {
        self.drag_start = self.position;
    }

    /// The pointer moved by `(dx, dy)` since the drag began: move there and
    /// return the new margins.
    pub fn drag_update(&mut self, dx: i32, dy: i32) -> (p: (i32, i32))
        requires
            drag_in_range(old(self).drag_start, dx, dy),
        ensures
            p == dragged_spec(old(self).drag_start, dx, dy),
            final(self).position == p,
            final(self).drag_start == old(self).drag_start,
            final(self).size == old(self).size,
            final(self).visible == old(self).visible,
    {
        let right = clamp(self.drag_start.0 - dx, 0, MAX_RIGHT);
        let top = clamp(self.drag_start.1 + dy, 0, MAX_TOP);
        self.position = (right, top);
        (right, top)
    }

    /// The drag ended at `(dx, dy)`: move there and return the margins to save.
    pub fn end_drag(&mut self, dx: i32, dy: i32) -> (p: (i32, i32))
        requires
            drag_in_range(old(self).drag_start, dx, dy),
        ensures
            p == dragged_spec(old(self).drag_start, dx, dy),
            final(self).position == p,
            final(self).drag_start == old(self).drag_start,
            final(self).size == old(self).size,
            final(self).visible == old(self).visible,
    {
        self.drag_update(dx, dy)
    }
}

/// A drag never takes the overlay off screen: both margins stay between zero
/// and their limits.
pub proof fn lemma_drag_stays_on_screen(start: (i32, i32), dx: i32, dy: i32)
    requires
        drag_in_range(start, dx, dy),
    ensures
        0 <= dragged_spec(start, dx, dy).0 <= MAX_RIGHT,
        0 <= dragged_spec(start, dx, dy).1 <= MAX_TOP,
{
}

/// A drag that has not moved leaves an on-screen overlay where it was.
pub proof fn lemma_still_drag_keeps_position(start: (i32, i32))
    requires
        0 <= start.0 <= MAX_RIGHT,
        0 <= start.1 <= MAX_TOP,
    ensures
        dragged_spec(start, 0, 0) == start,
{
}

} // verus!
