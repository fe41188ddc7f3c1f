//! Colours, drawing commands and the rectangle that the crab is drawn as.

use vstd::prelude::*;

verus! {

/// A colour with four channels: red, green, blue and opacity.
///
/// A channel value `c` stands for the intensity `c / 255`.
#[derive(Clone, Copy, Debug, PartialEq, Eq, Structural)]
pub struct Colour {
    pub r: u8,
    pub g: u8,
    pub b: u8,
    pub a: u8,
}

impl Colour {
    /// Builds a colour from its four channels.
    pub fn new(r: u8, g: u8, b: u8, a: u8) -> (c: Colour)
        ensures
            c == (Colour { r, g, b, a }),
    {
        Colour { r, g, b, a }
    }
}

/// One instruction to the drawing surface.
///
/// A frame is a sequence of these, carried out in order by the host.
#[derive(Clone, Copy, Debug, PartialEq, Eq, Structural)]
pub enum DrawCommand {
    /// Wipe the surface.
    Clear,
    /// Fill the circle with the given centre and radius.
    FillCircle { x: i32, y: i32, radius: i32, tolerance: i32, colour: Colour },
    /// Fill the rectangle whose top left corner is `(x, y)`.
    FillRect { x: i32, y: i32, width: i32, height: i32, colour: Colour },
    /// Show what has been drawn since the last `Clear`.
    Present,
}

/// A coloured axis-aligned rectangle, placed by its top left corner.
#[derive(Clone, Copy, Debug, PartialEq, Eq, Structural)]
pub struct Square {
    pub x: i32,
    pub y: i32,
    pub width: i32,
    pub height: i32,
    pub colour: Colour,
}

impl Square {
    /// A rectangle can be drawn when it covers some area.
    pub open spec fn wf(&self) -> bool {
        self.width > 0 && self.height > 0
    }

    /// The command that draws this rectangle where it stands now.
    pub open spec fn draw_spec(&self) -> DrawCommand {
        DrawCommand::FillRect {
            x: self.x,
            y: self.y,
            width: self.width,
            height: self.height,
            colour: self.colour,
        }
    }

    /// Builds the rectangle with the given corner, size and colour.
    pub fn new(x: i32, y: i32, width: i32, height: i32, colour: Colour) -> (s: Square)
        ensures
            s == (Square { x, y, width, height, colour }),
    {
        Square { x, y, width, height, colour }
    }

    /// Gives the single fill command that paints this rectangle at its
    /// current position, in its own size and colour.
    pub fn draw(&self) -> (cmd: DrawCommand)
        ensures
            cmd == self.draw_spec(),
    {
        DrawCommand::FillRect {
            x: self.x,
            y: self.y,
            width: self.width,
            height: self.height,
            colour: self.colour,
        }
    }
}

} // verus!
