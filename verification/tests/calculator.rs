use flemish::color::Color;
use flemish::models::calculator::{colors, paint_of, shortcut_of, Paint, Shortcut, EQUAL};
use flemish::text::same;

#[test]
fn operations_result_and_digits_have_their_paints() {
    for label in ["CE", "C", "x", "/", "+", "-", "%"] {
        assert_eq!(paint_of(label), Paint::Operation, "{label}");
    }
    assert_eq!(paint_of(EQUAL), Paint::Result);
    assert_eq!(paint_of("="), Paint::Result);
    for label in ["0", "1", "7", "9", ".", "@<-", "", "CEE", "c"] {
        assert_eq!(paint_of(label), Paint::Digit, "{label}");
    }
}

#[test]
fn paints_index_the_colors_of_a_theme() {
    assert_eq!(Paint::Ground.index(), 0);
    assert_eq!(Paint::Text.index(), 1);
    assert_eq!(Paint::Operation.index(), 2);
    assert_eq!(Paint::Spare.index(), 3);
    assert_eq!(Paint::Digit.index(), 4);
    assert_eq!(Paint::Result.index(), 5);
    let light = colors(false);
    let dark = colors(true);
    assert_eq!(light.len(), 6);
    assert_eq!(dark.len(), 6);
    assert_eq!(light[0], Color::from_hex(0xfdf6e3));
    assert_eq!(light[paint_of("+").index()], Color::from_hex(0xb58900));
    assert_eq!(light[paint_of("=").index()], Color::from_hex(0xdc322f));
    assert_eq!(light[paint_of("5").index()], Color::from_hex(0xcb4b16));
    assert_eq!(dark[1], Color { r: 0x93, g: 0xa1, b: 0xa1 });
    assert_eq!(dark[paint_of("+").index()], Color::from_hex(0x268bd2));
    assert_eq!(dark[paint_of("=").index()], Color::from_hex(0xd33682));
    assert_eq!(dark[paint_of("5").index()], Color::from_hex(0x6c71c4));
    assert_eq!(dark[3], Color::from_hex(0x073642));
}

#[test]
fn keys_have_their_shortcuts() {
    assert_eq!(shortcut_of("@<-"), Shortcut::BackSpace);
    assert_eq!(shortcut_of("CE"), Shortcut::Delete);
    assert_eq!(shortcut_of("="), Shortcut::Enter);
    assert_eq!(shortcut_of("x"), Shortcut::Char('*'));
    assert_eq!(shortcut_of("C"), Shortcut::Char('C'));
    assert_eq!(shortcut_of("7"), Shortcut::Char('7'));
    assert_eq!(shortcut_of("."), Shortcut::Char('.'));
    assert_eq!(shortcut_of("%"), Shortcut::Char('%'));
    assert_eq!(shortcut_of("étoile"), Shortcut::Char('é'));
}

#[test]
fn texts_are_compared_by_their_characters() {
    assert!(same("", ""));
    assert!(same("CE", "CE"));
    assert!(same("é=", "é="));
    assert!(!same("CE", "C"));
    assert!(!same("C", "CE"));
    assert!(!same("CE", "CF"));
    assert!(!same("é", "e"));
}
