//! Highlighting for the response pane of a REST client: a style for every
//! byte of a JSON text.

use crate::lexer::{lex, lexed, Token, TokenType};
use vstd::prelude::*;
use vstd::utf8::encode_utf8;

verus! {

/// The style of plain bytes: punctuation, what is no token, and what is in
/// no token at all.
pub const PLAIN: u8 = 65;

/// The style of strings.
pub const STRING: u8 = 66;

/// The style of `true`, `false` and `null`.
pub const WORD: u8 = 67;

/// The style of numbers.
pub const NUMBER: u8 = 68;

/// The style in which the tokens of a kind are shown.
pub open spec fn spec_style_of(kind: TokenType) -> u8 {
    match kind {
        TokenType::String => STRING,
        TokenType::BooleanTrue | TokenType::BooleanFalse | TokenType::Null => WORD,
        TokenType::Number => NUMBER,
        TokenType::CurlyOpen
        | TokenType::CurlyClose
        | TokenType::BracketOpen
        | TokenType::BracketClose
        | TokenType::Colon
        | TokenType::Comma
        | TokenType::Invalid => PLAIN,
    }
}

/// The style in which the tokens of a kind are shown.
#[verifier::when_used_as_spec(spec_style_of)]
pub fn style_of(kind: TokenType) -> (style: u8)
    ensures
        style == spec_style_of(kind),
{
    match kind {
        TokenType::String => STRING,
        TokenType::BooleanTrue | TokenType::BooleanFalse | TokenType::Null => WORD,
        TokenType::Number => NUMBER,
        TokenType::CurlyOpen
        | TokenType::CurlyClose
        | TokenType::BracketOpen
        | TokenType::BracketClose
        | TokenType::Colon
        | TokenType::Comma
        | TokenType::Invalid => PLAIN,
    }
}

/// Whether a token spans the byte at an index.
pub open spec fn covers(token: Token, index: int) -> bool {
    token.span matches Some(span) && span.first <= index < span.end
}

/// The style of the byte at an index: that of the last token that spans it,
/// and plain where none does.
pub open spec fn style_at(tokens: Seq<Token>, index: int) -> u8
    decreases tokens.len(),
{
    if tokens.len() == 0 {
        PLAIN
    } else if covers(tokens.last(), index) {
        style_of(tokens.last().kind)
    } else {
        style_at(tokens.drop_last(), index)
    }
}

/// Whether a token lies within a text of the given length.
pub open spec fn fits(token: Token, len: nat) -> bool {
    token.span matches Some(span) ==> span.first <= span.end <= len
}

/// Whether all tokens lie within a text of the given length.
pub open spec fn all_fit(tokens: Seq<Token>, len: nat) -> bool {
    forall|k: int| 0 <= k < tokens.len() ==> fits(#[trigger] tokens[k], len)
}

/// Whether a buffer holds the style of each byte of a text with the given
/// tokens.
pub open spec fn styled(styles: Seq<u8>, tokens: Seq<Token>, len: nat) -> bool {
    &&& styles.len() == len
    &&& forall|i: int| 0 <= i < len ==> #[trigger] styles[i] == style_at(tokens, i)
}

/// Says whether all tokens lie within a text of the given length.
pub fn within(tokens: &Vec<Token>, len: usize) -> (ok: bool)
    ensures
        ok == all_fit(tokens@, len as nat),
{
    let mut next: usize = 0;
    while next < tokens.len()
        invariant
            next <= tokens.len(),
            all_fit(tokens@.take(next as int), len as nat),
        decreases tokens.len() - next,
    {
        match tokens[next].span {
            Some(span) => {
                if span.first > span.end || span.end > len as u64 {
                    assert(!fits(tokens@[next as int], len as nat));
                    return false;
                }
            },
            None => {},
        }
        next += 1;
        assert forall|k: int| 0 <= k < next implies fits(
            #[trigger] tokens@.take(next as int)[k],
            len as nat,
        ) by {
            if k < next - 1 {
                assert(tokens@.take(next as int)[k] == tokens@.take(next - 1)[k]);
            }
        }
    }
    assert(tokens@.take(next as int) =~= tokens@);
    true
}

/// A buffer of the given length with the plain style everywhere.
fn blank(len: usize) -> (styles: Vec<u8>)
    ensures
        styled(styles@, Seq::<Token>::empty(), len as nat),
{
    let mut styles: Vec<u8> = Vec::new();
    while styles.len() < len
        invariant
            styles.len() <= len,
            forall|i: int| 0 <= i < styles.len() ==> #[trigger] styles[i] == PLAIN,
        decreases len - styles.len(),
    {
        styles.push(PLAIN);
    }
    styles
}

/// Builds the style buffer of a text of `len` bytes from its tokens: one
/// style for each byte, that of the last token that spans the byte, and
/// plain where none does.
pub fn paint(len: usize, tokens: &Vec<Token>) -> (styles: Vec<u8>)
    requires
        all_fit(tokens@, len as nat),
    ensures
        styled(styles@, tokens@, len as nat),
{
    let mut styles = blank(len);
    let mut next: usize = 0;
    assert(tokens@.take(0) =~= Seq::<Token>::empty());
    while next < tokens.len()
        invariant
            next <= tokens.len(),
            all_fit(tokens@, len as nat),
            styled(styles@, tokens@.take(next as int), len as nat),
        decreases tokens.len() - next,
    {
        let token = tokens[next];
        let ghost done = tokens@.take(next as int);
        let ghost more = tokens@.take(next + 1);
        assert(more.drop_last() =~= done);
        assert(more.last() == token);
        assert(fits(tokens@[next as int], len as nat));
        match token.span {
            Some(span) => {
                let style = style_of(token.kind);
                let end: usize = span.end as usize;
                let mut at: usize = span.first as usize;
                while at < end
                    invariant
                        span.first <= at,
                        at <= end || span.first == at,
                        end == span.end,
                        end <= len,
                        token.span == Some(span),
                        style == style_of(token.kind),
                        styles.len() == len,
                        forall|i: int|
                            0 <= i < len ==> #[trigger] styles[i] == (if span.first <= i < at {
                                style
                            } else {
                                style_at(done, i)
                            }),
                    decreases end - at,
                {
                    styles.set(at, style);
                    at += 1;
                }
            },
            None => {},
        }
        next += 1;
        assert forall|i: int| 0 <= i < len implies #[trigger] styles[i] == style_at(more, i) by {
            assert(style_at(more, i) == (if covers(token, i) {
                style_of(token.kind)
            } else {
                style_at(done, i)
            }));
        }
    }
    assert(tokens@.take(next as int) =~= tokens@);
    styles
}

/// Computes the style of each byte of a JSON text for display: strings,
/// numbers and the words `true`, `false` and `null` each in a style of
/// their own, everything else plain. Returns `None` where a token does not
/// lie within the text, for which there is no highlighting.
pub fn add_highlight(text: &str) -> (styles: Option<Vec<u8>>)
    ensures
        match styles {
            Some(buffer) => all_fit(lexed(text@), encode_utf8(text@).len()) && styled(
                buffer@,
                lexed(text@),
                encode_utf8(text@).len(),
            ),
            None => !all_fit(lexed(text@), encode_utf8(text@).len()),
        },
{
    let tokens = lex(text);
    let len = text.as_bytes().len();
    if within(&tokens, len) {
        Some(paint(len, &tokens))
    } else {
        None
    }
}

} // verus!
