//! The buttons: which one counts as pressed when several are down.

use vstd::prelude::*;

verus! {

/// The button that counts as pressed.
#[derive(Clone, Copy, Debug, PartialEq, Eq, Structural)]
pub enum Pressed {
    Up,
    Down,
    Left,
    Right,
    /// No button is down.
    Nothing,
    A,
    B,
    Menu,
}

/// The state of the seven button lines at one moment: `true` where the button is down.
#[derive(Clone, Copy, Debug, PartialEq, Eq, Structural)]
pub struct Buttons {
    pub a: bool,
    pub b: bool,
    pub up: bool,
    pub down: bool,
    pub left: bool,
    pub right: bool,
    pub menu: bool,
}

impl Buttons {
    /// The button that wins when several are down: the first that is down of up, down,
    /// right, left, A, B and menu.
    pub open spec fn winner(self) -> Pressed {
        if self.up {
            Pressed::Up
        } else if self.down {
            Pressed::Down
        } else if self.right {
            Pressed::Right
        } else if self.left {
            Pressed::Left
        } else if self.a {
            Pressed::A
        } else if self.b {
            Pressed::B
        } else if self.menu {
            Pressed::Menu
        } else {
            Pressed::Nothing
        }
    }

    /// Tells which button counts as pressed.
    pub fn pressed(&self) -> (r: Pressed)
        ensures
            r == self.winner(),
            r is Nothing <==> !(self.up || self.down || self.right || self.left || self.a || self.b
                || self.menu),
    {
        if self.up {
            Pressed::Up
        } else if self.down {
            Pressed::Down
        } else if self.right {
            Pressed::Right
        } else if self.left {
            Pressed::Left
        } else if self.a {
            Pressed::A
        } else if self.b {
            Pressed::B
        } else if self.menu {
            Pressed::Menu
        } else {
            Pressed::Nothing
        }
    }
}

} // verus!
