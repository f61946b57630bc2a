//! Three check buttons, each of which keeps what it was last set to.

use crate::sandbox::Sandbox;
use vstd::prelude::*;

verus! {

/// What the check buttons say: each the value that it was set to.
#[derive(Clone, Copy, Debug, PartialEq, Eq, Structural)]
pub enum Msg {
    DefaultToggled(bool),
    CustomToggled(bool),
    StyledToggled(bool),
}

/// The state: the value of each of the three check buttons. It serves as
/// the widget tree as well, which shows just these three values.
#[derive(Clone, Copy, Debug, PartialEq, Eq, Structural)]
pub struct Model {
    pub default: bool,
    pub styled: bool,
    pub custom: bool,
}

/// The state after a check button has been set.
pub open spec fn toggled(state: Model, message: Msg) -> Model {
    match message {
        Msg::DefaultToggled(value) => Model { default: value, ..state },
        Msg::StyledToggled(value) => Model { styled: value, ..state },
        Msg::CustomToggled(value) => Model { custom: value, ..state },
    }
}

impl Sandbox for Model {
    type Message = Msg;

    type Tree = Model;

    type State = Model;

    type Scene = Model;

    open spec fn state(&self) -> Model {
        *self
    }

    open spec fn scene(tree: &Model) -> Model {
        *tree
    }

    open spec fn initial() -> Model {
        Model { default: true, styled: false, custom: false }
    }

    open spec fn caption(state: Model) -> Seq<char> {
        "CheckButton - Flemish"@
    }

    open spec fn shown(state: Model) -> Model {
        state
    }

    open spec fn next(state: Model, message: Msg) -> Model {
        toggled(state, message)
    }

    open spec fn redraws(state: Model, message: Msg) -> bool {
        true
    }

    proof fn lemma_absorbed(state: Model, message: Msg) {
    }

    fn new() -> (model: Model) {
        Self { default: true, styled: false, custom: false }
    }

    fn title(&self) -> (caption: String) {
        String::from_str("CheckButton - Flemish")
    }

    fn view(&self) -> (tree: Model) {
        *self
    }

    fn update(&mut self, message: Msg) -> (redraw: bool) {
        match message {
            Msg::DefaultToggled(value) => {
                self.default = value;
            },
            Msg::StyledToggled(value) => {
                self.styled = value;
            },
            Msg::CustomToggled(value) => {
                self.custom = value;
            },
        }
        true
    }
}

} // verus!
