//! The game: the crab, the orb that sweeps over the field, and the frame
//! that shows them.
//!
//! The host drives the game. Once per frame it calls `update` and then
//! `draw`, and carries out the commands that `draw` hands back; whenever a
//! key goes down it calls `key_down_event`.

use vstd::prelude::*;
use crate::crab::{after_key, Crab, Key};
use crate::shape::{Colour, DrawCommand};

verus! {

/// The orb's column starts again after this many frames.
pub const ORB_PERIOD: i32 = 400;

/// The row along which the orb's centre travels.
pub const ORB_Y: i32 = 350;

/// The orb's radius.
pub const ORB_RADIUS: i32 = 10;

/// How far the drawn outline of the orb may stray from a true circle.
pub const ORB_TOLERANCE: i32 = 2;

/// The orb's column one frame after it was `x`.
///
/// The column is wrapped first and advanced second, so it runs from 1 up to
/// the period itself and then starts again at 1; it is 0 only before the
/// first frame.
pub open spec fn next_orb(x: int) -> int {
    x % (ORB_PERIOD as int) + 1
}

/// The orb's column `n` frames after it was `x`.
pub open spec fn orb_after(x: int, n: nat) -> int
    decreases n,
{
    if n == 0 {
        x
    } else {
        next_orb(orb_after(x, (n - 1) as nat))
    }
}

/// The colour that the orb is painted in.
pub open spec fn orb_colour() -> Colour {
    Colour { r: 255, g: 255, b: 255, a: 255 }
}

/// The commands of one frame that shows the orb in column `orb` and the crab
/// as `crab`: wipe, orb, crab, show.
pub open spec fn frame_of(orb: int, crab: DrawCommand) -> Seq<DrawCommand> {
    seq![
        DrawCommand::Clear,
        DrawCommand::FillCircle {
            x: orb as i32,
            y: ORB_Y,
            radius: ORB_RADIUS,
            tolerance: ORB_TOLERANCE,
            colour: orb_colour(),
        },
        crab,
        DrawCommand::Present,
    ]
}

/// All that changes while the game runs.
pub struct MainState {
    pos_x: i32,
    player: Crab,
}

impl MainState {
    /// The column of the orb's centre.
    pub closed spec fn orb(&self) -> int {
        self.pos_x as int
    }

    /// The crab.
    pub closed spec fn player_spec(&self) -> Crab {
        self.player
    }

    /// The orb's column is one that `update` can have produced, or the 0 it
    /// started from, and the crab is well formed.
    pub open spec fn wf(&self) -> bool {
        &&& 0 <= self.orb() <= ORB_PERIOD
        &&& self.player_spec().wf()
    }

    /// Starts a game: the orb in column 0, the crab at its starting place.
    pub fn new() -> (state: MainState)
        ensures
            state.wf(),
            state.orb() == 0,
            state.player_spec()@ == crate::crab::start(),
    {
        MainState { pos_x: 0, player: Crab::new() }
    }

    /// The column of the orb's centre.
    pub fn pos_x(&self) -> (x: i32)
        ensures
            x == self.orb(),
    {
        self.pos_x
    }

    /// The crab.
    pub fn player(&self) -> (crab: &Crab)
        ensures
            *crab == self.player_spec(),
    {
        &self.player
    }

    /// Advances the game by one frame: the orb moves on, the crab stays.
    pub fn update(&mut self)
        requires
            old(self).wf(),
        ensures
            final(self).wf(),
            final(self).orb() == next_orb(old(self).orb()),
            final(self).player_spec() == old(self).player_spec(),
    {
        self.pos_x = self.pos_x % ORB_PERIOD + 1;
    }

    /// Gives the commands that paint the current frame, in the order in
    /// which they are to be carried out.
    pub fn draw(&self) -> (frame: Vec<DrawCommand>)
        requires
            self.wf(),
        ensures
            frame@ == frame_of(self.orb(), self.player_spec().form_spec().draw_spec()),
    {
        let mut frame: Vec<DrawCommand> = Vec::new();
        frame.push(DrawCommand::Clear);
        frame.push(
            DrawCommand::FillCircle {
                x: self.pos_x,
                y: ORB_Y,
                radius: ORB_RADIUS,
                tolerance: ORB_TOLERANCE,
                colour: Colour::new(255, 255, 255, 255),
            },
        );
        frame.push(self.player.draw());
        frame.push(DrawCommand::Present);
        assert(frame@ =~= frame_of(self.orb(), self.player_spec().form_spec().draw_spec()));
        frame
    }

    /// Reacts to a key going down: an arrow key asks the crab to step that
    /// way, any other key changes nothing.
    pub fn key_down_event(&mut self, key: Key)
        requires
            old(self).wf(),
        ensures
            final(self).wf(),
            final(self).orb() == old(self).orb(),
            final(self).player_spec()@ == after_key(old(self).player_spec()@, key),
            key is Other ==> *final(self) == *old(self),
    {
        match key {
            Key::Up => self.player.move_up(),
            Key::Down => self.player.move_down(),
            Key::Right => self.player.move_right(),
            Key::Left => self.player.move_left(),
            Key::Other => {},
        }
    }
}

/// From the second frame on the orb's column is between 1 and the period,
/// whatever it was before.
pub proof fn lemma_orb_in_period(x: int, n: nat)
    requires
        n > 0,
    ensures
        1 <= orb_after(x, n) <= ORB_PERIOD,
{
}

/// The orb's column is a sawtooth: `n` frames after column `x` it is in
/// column `(x + n - 1) % ORB_PERIOD + 1`. From column 0 it so runs through
/// 1, 2, up to the period, and then again from 1.
pub proof fn lemma_orb_sawtooth(x: int, n: nat)
    requires
        0 <= x,
        n > 0,
    ensures
        orb_after(x, n) == (x + n - 1) % (ORB_PERIOD as int) + 1,
    decreases n,
{
    let before = orb_after(x, (n - 1) as nat);
    assert(orb_after(x, n) == next_orb(before));
    if n == 1 {
        assert(before == x);
    } else {
        lemma_orb_sawtooth(x, (n - 1) as nat);
        assert(before == (x + n - 2) % (ORB_PERIOD as int) + 1);
        assert(((x + n - 2) % (ORB_PERIOD as int) + 1) % (ORB_PERIOD as int) == (x + n - 1) % (ORB_PERIOD as int));
    }
}

} // verus!
