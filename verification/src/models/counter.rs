//! A counter: one number, and two buttons that move it up and down.

use crate::sandbox::Sandbox;
use crate::text::{decimal, digits};
use vstd::prelude::*;

verus! {

/// What the buttons of the counter say.
#[derive(Clone, Copy, Debug, PartialEq, Eq, Structural)]
pub enum Msg {
    /// Count one up.
    Inc,
    /// Count one down.
    Dec,
}

/// The state of the counter.
#[derive(Clone, Copy, Debug, PartialEq, Eq, Structural)]
pub struct Model {
    value: u8,
}

/// What the window of the counter holds, left to right: a button, the number
/// and another button. Each button has the message that a click on it sends.
#[derive(Debug)]
pub struct Tree {
    /// The message of the left button.
    pub down: Msg,
    /// The number, in decimal notation.
    pub value: String,
    /// The message of the right button.
    pub up: Msg,
}

/// The widget tree of the counter as a value.
pub struct Scene {
    pub down: Msg,
    pub value: Seq<char>,
    pub up: Msg,
}

/// The number after a message: one more or one less, within what a `u8`
/// holds.
pub open spec fn counted(value: u8, message: Msg) -> u8 {
    match message {
        Msg::Inc => if value < u8::MAX {
            (value + 1) as u8
        } else {
            value
        },
        Msg::Dec => if value > 0 {
            (value - 1) as u8
        } else {
            value
        },
    }
}

impl Model {
    /// The number that the counter stands at.
    pub closed spec fn spec_value(&self) -> u8 {
        self.value
    }

    /// The number that the counter stands at.
    #[verifier::when_used_as_spec(spec_value)]
    pub fn value(&self) -> (value: u8)
        ensures
            value == self.spec_value(),
    {
        self.value
    }
}

impl Sandbox for Model {
    type Message = Msg;

    type Tree = Tree;

    type State = u8;

    type Scene = Scene;

    open spec fn state(&self) -> u8 {
        self.value()
    }

    open spec fn scene(tree: &Tree) -> Scene {
        Scene { down: tree.down, value: tree.value@, up: tree.up }
    }

    open spec fn initial() -> u8 {
        0
    }

    open spec fn caption(state: u8) -> Seq<char> {
        digits(state as nat) + " - 7GUI: Counter"@
    }

    open spec fn shown(state: u8) -> Scene {
        Scene { down: Msg::Dec, value: digits(state as nat), up: Msg::Inc }
    }

    open spec fn next(state: u8, message: Msg) -> u8 {
        counted(state, message)
    }

    open spec fn redraws(state: u8, message: Msg) -> bool {
        true
    }

    proof fn lemma_absorbed(state: u8, message: Msg) {
    }

    fn new() -> (model: Model) {
        Model { value: 0 }
    }

    fn title(&self) -> (caption: String) {
        let mut caption = decimal(self.value);
        caption.append(" - 7GUI: Counter");
        caption
    }

    fn view(&self) -> (tree: Tree) {
        Tree { down: Msg::Dec, value: decimal(self.value), up: Msg::Inc }
    }

    fn update(&mut self, message: Msg) -> (redraw: bool) {
        match message {
            Msg::Dec => {
                self.value = self.value.saturating_sub(1);
            },
            Msg::Inc => {
                self.value = self.value.saturating_add(1);
            },
        }
        true
    }
}

} // verus!
