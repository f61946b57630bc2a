//! A Base64 coder: two editors side by side, one with plain text and one
//! with its Base64 encoding. Whatever is typed into one is carried over to
//! the other.

use crate::codec::{
    decode_standard, encode_limit, encode_standard, standard_decoded, standard_encoded, text_of,
    utf8_fault,
};
use crate::sandbox::Sandbox;
use vstd::prelude::*;
use vstd::utf8::{decode_utf8, encode_utf8, encode_utf8_decode_utf8, valid_utf8};

verus! {

/// What the editors say.
#[derive(Clone, Debug)]
pub enum Msg {
    /// The Base64 text was changed to this.
    Enc(String),
    /// The plain text was changed to this.
    Dec(String),
}

/// The state of the coder.
#[derive(Debug, Clone)]
pub struct Model {
    focus: i32,
    decode: String,
    encode: String,
}

/// The coder as a value: the position of the editor that has the focus, and
/// the texts of the plain and of the Base64 editor.
pub struct Sheet {
    pub focus: i32,
    pub decode: Seq<char>,
    pub encode: Seq<char>,
}

/// What the window of the coder holds: the texts of the two editors, and the
/// position in the window of the one that has the focus.
#[derive(Debug, Clone)]
pub struct Tree {
    pub decode: String,
    pub encode: String,
    pub focus: i32,
}

/// How the children of a group are laid out.
#[derive(Clone, Copy, Debug, PartialEq, Eq, Structural)]
pub enum FlexType {
    Column,
    Row,
}

/// What decoding gave, as a value.
pub open spec fn outcome(decoded: Result<Vec<u8>, String>) -> Result<Seq<u8>, Seq<char>> {
    match decoded {
        Ok(bytes) => Ok(bytes@),
        Err(fault) => Err(fault@),
    }
}

/// The plain text to show for what decoding gave: the text that the bytes
/// encode; where they encode none, what is wrong with them; where there are
/// no bytes, what was wrong with the Base64 text.
pub open spec fn decoded_text(decoded: Result<Seq<u8>, Seq<char>>) -> Seq<char> {
    match decoded {
        Ok(bytes) => if valid_utf8(bytes) {
            decode_utf8(bytes)
        } else {
            utf8_fault(bytes)
        },
        Err(fault) => fault,
    }
}

/// The plain text to show for a Base64 text.
pub open spec fn plain_of(encoded: Seq<char>) -> Seq<char> {
    decoded_text(standard_decoded(encoded))
}

/// The Base64 text to show for a plain text: its encoding, or a note where
/// the text is too long to be encoded.
pub open spec fn encoded_of(plain: Seq<char>) -> Seq<char> {
    if encode_utf8(plain).len() <= encode_limit() {
        standard_encoded(encode_utf8(plain))
    } else {
        "Input too long"@
    }
}

/// The plain text to show for what decoding gave. Nothing fails here: bytes
/// that are no text, and a fault of the decoding, are shown as what is wrong.
pub fn render(decoded: Result<Vec<u8>, String>) -> (text: String)
    ensures
        text@ == decoded_text(outcome(decoded)),
{
    match decoded {
        Ok(bytes) => match text_of(bytes) {
            Ok(plain) => {
                proof {
                    encode_utf8_decode_utf8(plain@);
                }
                plain
            },
            Err(fault) => fault,
        },
        Err(fault) => fault,
    }
}

/// The layout after an event on the group of the two editors. `resized`
/// says whether the event was a resize, `window` gives width and height of
/// the window of the group, if it has one. Returns the layout to change to,
/// if any, and whether the event has been handled: a resize always is, and
/// it stacks the editors in a window that is higher than wide and puts them
/// side by side in any other.
pub fn add_resize(resized: bool, window: Option<(i32, i32)>) -> (answer: (Option<FlexType>, bool))
    ensures
        answer.1 == resized,
        answer.0 == (match window {
            Some(size) if resized => Some(
                if size.0 < size.1 {
                    FlexType::Column
                } else {
                    FlexType::Row
                },
            ),
            _ => None,
        }),
{
    if resized {
        match window {
            Some(size) => {
                if size.0 < size.1 {
                    (Some(FlexType::Column), true)
                } else {
                    (Some(FlexType::Row), true)
                }
            },
            None => (None, true),
        }
    } else {
        (None, false)
    }
}

impl Model {
    /// The coder as a value.
    pub closed spec fn sheet(&self) -> Sheet {
        Sheet { focus: self.focus, decode: self.decode@, encode: self.encode@ }
    }

    /// The coder as it starts: a hint in each editor, the focus on the first.
    pub fn default() -> (model: Self)
        ensures
            model.sheet() == (Sheet { focus: 0, decode: "Normal text"@, encode: "Base64 text"@ }),
    {
        Self {
            focus: 0,
            decode: String::from_str("Normal text"),
            encode: String::from_str("Base64 text"),
        }
    }

    /// The plain text.
    pub fn decode(&self) -> (text: &String)
        ensures
            text@ == self.sheet().decode,
    {
        &self.decode
    }

    /// The Base64 text.
    pub fn encode(&self) -> (text: &String)
        ensures
            text@ == self.sheet().encode,
    {
        &self.encode
    }

    /// Takes a new Base64 text, shows its decoding as the plain text, and
    /// moves the focus to the Base64 editor. A text that is no Base64, or
    /// whose bytes are no text, gives the description of the fault as plain
    /// text.
    pub fn set_encode(&mut self, value: String)
        ensures
            final(self).sheet() == (Sheet { focus: 2, decode: plain_of(value@), encode: value@ }),
    {
        let decoded = decode_standard(value.as_str());
        self.decode = render(decoded);
        self.encode = value;
        self.focus = 2;
    }

    /// The position in the window of the editor that has the focus.
    pub fn focus(&self) -> (focus: i32)
        ensures
            focus == self.sheet().focus,
    {
        self.focus
    }

    /// Takes a new plain text, shows its encoding as the Base64 text, and
    /// moves the focus to the plain editor.
    pub fn set_decode(&mut self, value: String)
        ensures
            final(self).sheet() == (Sheet { focus: 0, decode: value@, encode: encoded_of(value@) }),
    {
        let bytes = value.as_str().as_bytes();
        self.encode = if bytes.len() <= encode_limit() {
            encode_standard(bytes)
        } else {
            String::from_str("Input too long")
        };
        self.decode = value;
        self.focus = 0;
    }
}

impl Sandbox for Model {
    type Message = Msg;

    type Tree = Tree;

    type State = Sheet;

    type Scene = Sheet;

    open spec fn state(&self) -> Sheet {
        self.sheet()
    }

    open spec fn scene(tree: &Tree) -> Sheet {
        Sheet { focus: tree.focus, decode: tree.decode@, encode: tree.encode@ }
    }

    open spec fn initial() -> Sheet {
        Sheet { focus: 0, decode: "Normal text"@, encode: "Base64 text"@ }
    }

    open spec fn caption(state: Sheet) -> Seq<char> {
        "FlBase64"@ + (if state.focus == 0 {
            " - encode"@
        } else {
            " - decode"@
        })
    }

    open spec fn shown(state: Sheet) -> Sheet {
        state
    }

    open spec fn next(state: Sheet, message: Msg) -> Sheet {
        match message {
            Msg::Dec(value) => Sheet { focus: 0, decode: value@, encode: encoded_of(value@) },
            Msg::Enc(value) => Sheet { focus: 2, decode: plain_of(value@), encode: value@ },
        }
    }

    open spec fn redraws(state: Sheet, message: Msg) -> bool {
        true
    }

    proof fn lemma_absorbed(state: Sheet, message: Msg) {
    }

    fn new() -> (model: Model) {
        Self::default()
    }

    fn title(&self) -> (caption: String) {
        let mut caption = String::from_str("FlBase64");
        caption.append(
            match self.focus {
                0 => " - encode",
                _ => " - decode",
            },
        );
        caption
    }

    fn view(&self) -> (tree: Tree) {
        Tree { decode: self.decode.clone(), encode: self.encode.clone(), focus: self.focus }
    }

    fn update(&mut self, message: Msg) -> (redraw: bool) {
        match message {
            Msg::Dec(value) => self.set_decode(value),
            Msg::Enc(value) => self.set_encode(value),
        }
        true
    }
}

} // verus!
