//! Rectangles of the drawing surface, and mouse events on it.

use vstd::prelude::*;

verus! {

/// A rectangle of cells: its top left corner and its size.
#[derive(Clone, Copy, Debug, Default, PartialEq, Eq, Structural)]
pub struct Rect {
    pub x: u16,
    pub y: u16,
    pub width: u16,
    pub height: u16,
}

impl Rect {
    /// The column after the last one.
    pub open spec fn right(self) -> int {
        self.x + self.width
    }

    /// The line after the last one.
    pub open spec fn bottom(self) -> int {
        self.y + self.height
    }

    /// Whether the rectangle ends within the range of `u16`.
    pub open spec fn fits(self) -> bool {
        self.right() <= u16::MAX && self.bottom() <= u16::MAX
    }

    /// Whether a cell lies in the rectangle.
    pub open spec fn holds(self, x: u16, y: u16) -> bool {
        self.x <= x < self.right() && self.y <= y < self.bottom()
    }
}

/// Whether two rectangles are the columns of an area: both have its lines, the left
/// one starts where the area starts, the right one starts where the left one ends,
/// and together they are as wide as the area.
pub open spec fn side_by_side(area: Rect, left: Rect, right: Rect) -> bool {
    &&& left.x == area.x && left.y == area.y && left.height == area.height
    &&& right.y == area.y && right.height == area.height
    &&& right.x == left.x + left.width
    &&& left.width + right.width == area.width
}

/// Whether two rectangles are the rows of an area: both have its columns, the upper
/// one starts where the area starts, the lower one starts where the upper one ends,
/// and together they are as high as the area.
pub open spec fn stacked(area: Rect, upper: Rect, lower: Rect) -> bool {
    &&& upper.x == area.x && upper.y == area.y && upper.width == area.width
    &&& lower.x == area.x && lower.width == area.width
    &&& lower.y == upper.y + upper.height
    &&& upper.height + lower.height == area.height
}

/// Whether a cell lies in a rectangle.
pub fn contains_point(rect: Rect, x: u16, y: u16) -> (inside: bool)
    ensures
        inside == rect.holds(x, y),
{
    let right: u32 = rect.x as u32 + rect.width as u32;
    let bottom: u32 = rect.y as u32 + rect.height as u32;
    rect.x <= x && rect.y <= y && right > x as u32 && bottom > y as u32
}

/// A button of the mouse, or a turn of its wheel.
#[derive(Clone, Copy, Debug, PartialEq, Eq, Structural)]
pub enum MouseButton {
    Left,
    Right,
    Middle,
    WheelUp,
    WheelDown,
}

/// What the mouse did, with the cell it did it on. The coordinates count from one.
#[derive(Clone, Copy, Debug, PartialEq, Eq, Structural)]
pub enum MouseEvent {
    Press(MouseButton, u16, u16),
    Release(u16, u16),
    Hold(u16, u16),
}

/// What the user did. Of a key only that it was one matters here.
#[derive(Clone, Copy, Debug, PartialEq, Eq, Structural)]
pub enum InputEvent {
    Key,
    Mouse(MouseEvent),
    Unsupported,
}

/// The cell of a mouse event, counted from zero. A coordinate of zero, which no
/// terminal sends, counts as one.
pub open spec fn event_cell(event: MouseEvent) -> (u16, u16) {
    let (x, y) = match event {
        MouseEvent::Press(_, x, y) => (x, y),
        MouseEvent::Release(x, y) => (x, y),
        MouseEvent::Hold(x, y) => (x, y),
    };
    (
        if x > 0 {
            (x - 1) as u16
        } else {
            0
        },
        if y > 0 {
            (y - 1) as u16
        } else {
            0
        },
    )
}

pub fn mouse_event_coords(event: &MouseEvent) -> (cell: (u16, u16))
    ensures
        cell == event_cell(*event),
{
    match event {
        MouseEvent::Press(_, x, y) => (x.saturating_sub(1), y.saturating_sub(1)),
        MouseEvent::Release(x, y) => (x.saturating_sub(1), y.saturating_sub(1)),
        MouseEvent::Hold(x, y) => (x.saturating_sub(1), y.saturating_sub(1)),
    }
}

/// The sum, kept within the range of `u16`.
pub open spec fn plus(a: u16, b: u16) -> u16 {
    if a + b > u16::MAX {
        u16::MAX
    } else {
        (a + b) as u16
    }
}

/// The difference, or zero where it would be negative.
pub open spec fn minus(a: u16, b: u16) -> u16 {
    if a < b {
        0
    } else {
        (a - b) as u16
    }
}

} // verus!
