//! The keys of a pocket calculator: which colour a key has and which key of
//! the keyboard stands for it.

use crate::color::Color;
use crate::text::same;
use vstd::prelude::*;

verus! {

/// The label of the key that gives the result.
pub const EQUAL: &'static str = "=";

/// What is pressed on the keyboard in place of a key of the calculator.
#[derive(Clone, Copy, Debug, PartialEq, Eq, Structural)]
pub enum Shortcut {
    BackSpace,
    Delete,
    Enter,
    /// The key with this character.
    Char(char),
}

/// Where in the colours of a theme a part of the calculator finds its own.
#[derive(Clone, Copy, Debug, PartialEq, Eq, Structural)]
pub enum Paint {
    /// Background of the window, and labels of the keys.
    Ground,
    /// Text of the display.
    Text,
    /// The keys of the operations.
    Operation,
    /// Spare.
    Spare,
    /// The keys of the digits.
    Digit,
    /// The key that gives the result.
    Result,
}

/// Whether a label is that of an operation.
pub open spec fn is_operation(label: Seq<char>) -> bool {
    label == "CE"@ || label == "C"@ || label == "x"@ || label == "/"@ || label == "+"@ || label
        == "-"@ || label == "%"@
}

/// The paint of the key with the given label.
pub open spec fn spec_paint_of(label: Seq<char>) -> Paint {
    if is_operation(label) {
        Paint::Operation
    } else if label == EQUAL@ {
        Paint::Result
    } else {
        Paint::Digit
    }
}

/// The shortcut of the key with the given label: the key of the keyboard
/// that does the same, and for every other label the key with its first
/// character.
pub open spec fn spec_shortcut_of(label: Seq<char>) -> Shortcut {
    if label == "@<-"@ {
        Shortcut::BackSpace
    } else if label == "CE"@ {
        Shortcut::Delete
    } else if label == EQUAL@ {
        Shortcut::Enter
    } else if label == "x"@ {
        Shortcut::Char('*')
    } else {
        Shortcut::Char(label[0])
    }
}

/// The colours of the light and of the dark theme, in the order of the
/// paints.
pub open spec fn spec_colors(dark: bool) -> Seq<Color> {
    if dark {
        seq![
            Color::of_hex(0x002b36),
            Color::of_hex(0x93a1a1),
            Color::of_hex(0x268bd2),
            Color::of_hex(0x073642),
            Color::of_hex(0x6c71c4),
            Color::of_hex(0xd33682),
        ]
    } else {
        seq![
            Color::of_hex(0xfdf6e3),
            Color::of_hex(0x586e75),
            Color::of_hex(0xb58900),
            Color::of_hex(0xeee8d5),
            Color::of_hex(0xcb4b16),
            Color::of_hex(0xdc322f),
        ]
    }
}

impl Paint {
    /// The position of this paint in the colours of a theme.
    pub open spec fn spec_index(self) -> usize {
        match self {
            Paint::Ground => 0,
            Paint::Text => 1,
            Paint::Operation => 2,
            Paint::Spare => 3,
            Paint::Digit => 4,
            Paint::Result => 5,
        }
    }

    /// The position of this paint in the colours of a theme.
    #[verifier::when_used_as_spec(spec_index)]
    pub fn index(self) -> (index: usize)
        ensures
            index == self.spec_index(),
    {
        match self {
            Paint::Ground => 0,
            Paint::Text => 1,
            Paint::Operation => 2,
            Paint::Spare => 3,
            Paint::Digit => 4,
            Paint::Result => 5,
        }
    }
}

/// The colours of the light and of the dark theme, in the order of the
/// paints.
pub fn colors(dark: bool) -> (colors: Vec<Color>)
    ensures
        colors@ == spec_colors(dark),
{
    let mut colors: Vec<Color> = Vec::new();
    if dark {
        colors.push(Color::from_hex(0x002b36));
        colors.push(Color::from_hex(0x93a1a1));
        colors.push(Color::from_hex(0x268bd2));
        colors.push(Color::from_hex(0x073642));
        colors.push(Color::from_hex(0x6c71c4));
        colors.push(Color::from_hex(0xd33682));
    } else {
        colors.push(Color::from_hex(0xfdf6e3));
        colors.push(Color::from_hex(0x586e75));
        colors.push(Color::from_hex(0xb58900));
        colors.push(Color::from_hex(0xeee8d5));
        colors.push(Color::from_hex(0xcb4b16));
        colors.push(Color::from_hex(0xdc322f));
    }
    assert(colors@ =~= spec_colors(dark));
    colors
}

/// The paint of the key with the given label: one for the operations, one
/// for the key that gives the result, one for all other keys.
pub fn paint_of(label: &str) -> (paint: Paint)
    ensures
        paint == spec_paint_of(label@),
{
    if same(label, "CE") || same(label, "C") || same(label, "x") || same(label, "/") || same(
        label,
        "+",
    ) || same(label, "-") || same(label, "%") {
        Paint::Operation
    } else if same(label, EQUAL) {
        Paint::Result
    } else {
        Paint::Digit
    }
}

/// The shortcut of the key with the given label. A key without a label has
/// none.
pub fn shortcut_of(label: &str) -> (shortcut: Shortcut)
    requires
        label@.len() > 0,
    ensures
        shortcut == spec_shortcut_of(label@),
{
    if same(label, "@<-") {
        Shortcut::BackSpace
    } else if same(label, "CE") {
        Shortcut::Delete
    } else if same(label, EQUAL) {
        Shortcut::Enter
    } else if same(label, "x") {
        Shortcut::Char('*')
    } else {
        Shortcut::Char(label.get_char(0))
    }
}

} // verus!
