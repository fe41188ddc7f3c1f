//! The crab: a square that steps over the playfield, one tile at a time.
//!
//! A step is taken only where the crab would still stand inside the field
//! afterwards. A step that would leave it is dropped as a whole: the crab is
//! not slid up to the border, it stays where it was.

use vstd::prelude::*;
use crate::shape::{Colour, DrawCommand, Square};

verus! {

/// Side of the crab's square, and the length of one step.
pub const SQUARE_SIZE: i32 = 10;

/// Width of the playfield.
pub const WIN_W: i32 = 400;

/// Height of the playfield.
pub const WIN_H: i32 = 700;

/// A key that the host reports as pressed.
///
/// Only the four arrow keys mean anything on the playfield; every other key
/// is reported as `Other`.
#[derive(Clone, Copy, Debug, PartialEq, Eq, Structural)]
pub enum Key {
    Up,
    Down,
    Left,
    Right,
    Other,
}

/// A place on the playfield, as the top left corner of the crab's square.
pub ghost struct Point {
    pub x: int,
    pub y: int,
}

/// Whether `x` is a column in which the crab may stand.
pub open spec fn column_on_field(x: int) -> bool {
    0 < x < WIN_W - SQUARE_SIZE
}

/// Whether `y` is a row in which the crab may stand.
pub open spec fn row_on_field(y: int) -> bool {
    0 < y < WIN_H
}

/// Whether the crab may stand at `p`.
pub open spec fn on_field(p: Point) -> bool {
    column_on_field(p.x) && row_on_field(p.y)
}

/// Where the crab starts: five tiles from the left, on the bottom row.
pub open spec fn start() -> Point {
    Point { x: 5 * SQUARE_SIZE, y: WIN_H - SQUARE_SIZE }
}

/// One step up from `p`, taken only if it ends strictly below the top edge.
pub open spec fn moved_up(p: Point) -> Point {
    if p.y - SQUARE_SIZE > 0 {
        Point { x: p.x, y: p.y - SQUARE_SIZE }
    } else {
        p
    }
}

/// One step down from `p`, taken only if it ends strictly above the bottom
/// edge.
pub open spec fn moved_down(p: Point) -> Point {
    if p.y + SQUARE_SIZE < WIN_H {
        Point { x: p.x, y: p.y + SQUARE_SIZE }
    } else {
        p
    }
}

/// One step right from `p`, taken only if it ends more than a tile short of
/// the right edge.
pub open spec fn moved_right(p: Point) -> Point {
    if p.x + SQUARE_SIZE < WIN_W - SQUARE_SIZE {
        Point { x: p.x + SQUARE_SIZE, y: p.y }
    } else {
        p
    }
}

/// One step left from `p`, taken only if it ends strictly right of the left
/// edge.
pub open spec fn moved_left(p: Point) -> Point {
    if p.x - SQUARE_SIZE > 0 {
        Point { x: p.x - SQUARE_SIZE, y: p.y }
    } else {
        p
    }
}

/// Where the crab stands after `key` was pressed while it stood at `p`.
pub open spec fn after_key(p: Point, key: Key) -> Point {
    match key {
        Key::Up => moved_up(p),
        Key::Down => moved_down(p),
        Key::Left => moved_left(p),
        Key::Right => moved_right(p),
        Key::Other => p,
    }
}

/// Where the crab stands after the keys of `keys` were pressed one after the
/// other, the first one first, starting at `p`.
pub open spec fn after_keys(p: Point, keys: Seq<Key>) -> Point
    decreases keys.len(),
{
    if keys.len() == 0 {
        p
    } else {
        after_key(after_keys(p, keys.drop_last()), keys.last())
    }
}

/// The player's piece.
pub struct Crab {
    form: Square,
}

impl View for Crab {
    type V = Point;

    closed spec fn view(&self) -> Point {
        Point { x: self.form.x as int, y: self.form.y as int }
    }
}

impl Crab {
    /// The square that the crab is drawn as.
    pub closed spec fn form_spec(&self) -> Square {
        self.form
    }

    /// The crab stands on the field, as a green square of one tile.
    pub open spec fn wf(&self) -> bool {
        &&& on_field(self@)
        &&& self.form_spec().x == self@.x
        &&& self.form_spec().y == self@.y
        &&& self.form_spec().width == SQUARE_SIZE
        &&& self.form_spec().height == SQUARE_SIZE
        &&& self.form_spec().colour == (Colour { r: 0, g: 255, b: 0, a: 255 })
    }

    /// Puts a new crab at the starting place.
    pub fn new() -> (crab: Crab)
        ensures
            crab.wf(),
            crab@ == start(),
    {
        Crab {
            form: Square::new(
                5 * SQUARE_SIZE,
                WIN_H - SQUARE_SIZE,
                SQUARE_SIZE,
                SQUARE_SIZE,
                Colour::new(0, 255, 0, 255),
            ),
        }
    }

    /// The crab's column.
    pub fn x(&self) -> (x: i32)
        ensures
            x == self@.x,
    {
        self.form.x
    }

    /// The crab's row.
    pub fn y(&self) -> (y: i32)
        ensures
            y == self@.y,
    {
        self.form.y
    }

    /// The square that the crab is drawn as.
    pub fn form(&self) -> (form: Square)
        ensures
            form == self.form_spec(),
            self.wf() ==> form.wf(),
    {
        self.form
    }

    /// Gives the command that paints the crab: that of its square.
    pub fn draw(&self) -> (cmd: DrawCommand)
        ensures
            cmd == self.form_spec().draw_spec(),
    {
        self.form.draw()
    }

    /// Steps one tile up, unless that would reach the top edge.
    pub fn move_up(&mut self)
        requires
            old(self).wf(),
        ensures
            final(self).wf(),
            final(self)@ == moved_up(old(self)@),
    {
        if self.form.y - SQUARE_SIZE > 0 {
            self.form.y -= SQUARE_SIZE;
        }
    }

    /// Steps one tile down, unless that would reach the bottom edge.
    pub fn move_down(&mut self)
        requires
            old(self).wf(),
        ensures
            final(self).wf(),
            final(self)@ == moved_down(old(self)@),
    {
        if self.form.y + SQUARE_SIZE < WIN_H {
            self.form.y += SQUARE_SIZE;
        }
    }

    /// Steps one tile right, unless that would come within a tile of the
    /// right edge.
    pub fn move_right(&mut self)
        requires
            old(self).wf(),
        ensures
            final(self).wf(),
            final(self)@ == moved_right(old(self)@),
    {
        if self.form.x + SQUARE_SIZE < WIN_W - SQUARE_SIZE {
            self.form.x += SQUARE_SIZE;
        }
    }

    /// Steps one tile left, unless that would reach the left edge.
    pub fn move_left(&mut self)
        requires
            old(self).wf(),
        ensures
            final(self).wf(),
            final(self)@ == moved_left(old(self)@),
    {
        if self.form.x - SQUARE_SIZE > 0 {
            self.form.x -= SQUARE_SIZE;
        }
    }
}

/// Whatever keys are pressed, and in whatever order, a crab that stood in a
/// row of the field still stands in one: its `y` stays above 0 and below the
/// field's height.
pub proof fn lemma_row_stays_on_field(p: Point, keys: Seq<Key>)
    requires
        row_on_field(p.y),
    ensures
        row_on_field(after_keys(p, keys).y),
    decreases keys.len(),
{
    if keys.len() > 0 {
        lemma_row_stays_on_field(p, keys.drop_last());
    }
}

/// Whatever keys are pressed, and in whatever order, a crab that stood in a
/// column of the field still stands in one: its `x` stays above 0 and below
/// the field's width less one tile.
pub proof fn lemma_column_stays_on_field(p: Point, keys: Seq<Key>)
    requires
        column_on_field(p.x),
    ensures
        column_on_field(after_keys(p, keys).x),
    decreases keys.len(),
{
    if keys.len() > 0 {
        lemma_column_stays_on_field(p, keys.drop_last());
    }
}

/// The starting place is on the field, so every place that key presses lead
/// to from there is on the field too.
pub proof fn lemma_play_stays_on_field(keys: Seq<Key>)
    ensures
        on_field(start()),
        on_field(after_keys(start(), keys)),
{
    lemma_row_stays_on_field(start(), keys);
    lemma_column_stays_on_field(start(), keys);
}

} // verus!
