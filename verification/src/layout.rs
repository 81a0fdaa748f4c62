//! The layout itself: which keys it defines, in which order, and what each
//! does on its levels.

use crate::eight_level::{law_block_lines, EightLevelKey, EightLevelKeyView, Level};
use crate::key::Key;
use crate::modifier::Mod::{Control, Shift};
use crate::modifier::ModSet;
use crate::redirect::Redirect;
use crate::text::{free_of, split_lines};
use vstd::prelude::*;

verus! {

/// The keys that the layout defines, in the order in which they are written.
pub open spec fn standard_layout() -> Seq<EightLevelKeyView> {
    seq![
        EightLevelKeyView::plain(Key::Backslash, "backslash"@, "bar"@),
        EightLevelKeyView::plain(Key::Space, "space"@, "space"@),
        EightLevelKeyView::plain(Key::Backspace, "BackSpace"@, "BackSpace"@)
            .with(Level::Three, Redirect::of(Key::Backspace, seq![Control, Shift]))
            .with(Level::Five, Redirect::of(Key::Backspace, seq![Control])),
        EightLevelKeyView::plain(Key::Tab, "Tab"@, "ISO_Left_Tab"@),
        EightLevelKeyView::plain(Key::Return, "Return"@, "Return"@),
        EightLevelKeyView::plain(Key::Insert, "Insert"@, "Insert"@),
        EightLevelKeyView::plain(Key::Delete, "Delete"@, "Delete"@)
            .with(Level::Three, Redirect::of(Key::Delete, seq![Control, Shift]))
            .with(Level::Five, Redirect::of(Key::Delete, seq![Control])),
        EightLevelKeyView::plain(Key::Home, "Home"@, "Home"@),
        EightLevelKeyView::plain(Key::End, "End"@, "End"@),
        EightLevelKeyView::plain(Key::PageUp, "Prior"@, "Prior"@),
        EightLevelKeyView::plain(Key::PageDown, "Next"@, "Next"@),
        EightLevelKeyView::plain(Key::Up, "Up"@, "Up"@)
            .with(Level::Three, Redirect::of(Key::Home, seq![Control]))
            .with(Level::Four, Redirect::of(Key::Home, seq![Control, Shift]))
            .with(Level::Five, Redirect::of(Key::PageUp, seq![]))
            .with(Level::Six, Redirect::of(Key::PageUp, seq![Shift])),
        EightLevelKeyView::plain(Key::Left, "Left"@, "Left"@)
            .with(Level::Three, Redirect::of(Key::Home, seq![]))
            .with(Level::Four, Redirect::of(Key::Home, seq![Shift]))
            .with(Level::Five, Redirect::of(Key::Left, seq![Control]))
            .with(Level::Six, Redirect::of(Key::Left, seq![Control, Shift])),
        EightLevelKeyView::plain(Key::Down, "Down"@, "Down"@)
            .with(Level::Three, Redirect::of(Key::End, seq![Control]))
            .with(Level::Four, Redirect::of(Key::End, seq![Control, Shift]))
            .with(Level::Five, Redirect::of(Key::PageDown, seq![]))
            .with(Level::Six, Redirect::of(Key::PageDown, seq![Shift])),
        EightLevelKeyView::plain(Key::Right, "Right"@, "Right"@)
            .with(Level::Three, Redirect::of(Key::End, seq![]))
            .with(Level::Four, Redirect::of(Key::End, seq![Shift]))
            .with(Level::Five, Redirect::of(Key::Right, seq![Control]))
            .with(Level::Six, Redirect::of(Key::Right, seq![Control, Shift])),
        EightLevelKeyView::plain(Key::Tilde, "grave"@, "asciitilde"@),
        EightLevelKeyView::plain(Key::Num1, "1"@, "exclam"@),
        EightLevelKeyView::plain(Key::Num2, "2"@, "at"@),
        EightLevelKeyView::plain(Key::Num3, "3"@, "numbersign"@),
        EightLevelKeyView::plain(Key::Num4, "4"@, "dollar"@),
        EightLevelKeyView::plain(Key::Num5, "5"@, "percent"@),
        EightLevelKeyView::plain(Key::Num6, "6"@, "asciicircum"@),
        EightLevelKeyView::plain(Key::Num7, "7"@, "ampersand"@),
        EightLevelKeyView::plain(Key::Num8, "8"@, "asterisk"@),
        EightLevelKeyView::plain(Key::Num9, "9"@, "parenleft"@),
        EightLevelKeyView::plain(Key::Num0, "0"@, "parenright"@),
        EightLevelKeyView::plain(Key::Minus, "minus"@, "underscore"@),
        EightLevelKeyView::plain(Key::Equal, "equal"@, "plus"@),
        EightLevelKeyView::plain(Key::Q, "q"@, "Q"@),
        EightLevelKeyView::plain(Key::W, "w"@, "W"@),
        EightLevelKeyView::plain(Key::E, "e"@, "E"@)
            .with(Level::Three, Redirect::of(Key::End, seq![]))
            .with(Level::Four, Redirect::of(Key::End, seq![Shift])),
        EightLevelKeyView::plain(Key::R, "r"@, "R"@),
        EightLevelKeyView::plain(Key::T, "t"@, "T"@),
        EightLevelKeyView::plain(Key::Y, "y"@, "Y"@),
        EightLevelKeyView::plain(Key::U, "u"@, "U"@),
        EightLevelKeyView::plain(Key::I, "i"@, "I"@),
        EightLevelKeyView::plain(Key::O, "o"@, "O"@),
        EightLevelKeyView::plain(Key::P, "p"@, "P"@)
            .with(Level::Three, Redirect::of(Key::Up, seq![]))
            .with(Level::Four, Redirect::of(Key::Up, seq![Shift]))
            .with(Level::Five, Redirect::of(Key::PageUp, seq![]))
            .with(Level::Six, Redirect::of(Key::PageUp, seq![Shift])),
        EightLevelKeyView::plain(Key::BracketLeft, "bracketleft"@, "braceleft"@),
        EightLevelKeyView::plain(Key::BracketRight, "bracketright"@, "braceright"@),
        EightLevelKeyView::plain(Key::A, "a"@, "A"@)
            .with(Level::Three, Redirect::of(Key::Home, seq![]))
            .with(Level::Four, Redirect::of(Key::Home, seq![Shift])),
        EightLevelKeyView::plain(Key::S, "s"@, "S"@),
        EightLevelKeyView::plain(Key::D, "d"@, "D"@)
            .with(Level::Three, Redirect::of(Key::Delete, seq![]))
            .with(Level::Five, Redirect::of(Key::Delete, seq![Control])),
        EightLevelKeyView::plain(Key::F, "f"@, "F"@)
            .with(Level::Three, Redirect::of(Key::Right, seq![]))
            .with(Level::Four, Redirect::of(Key::Right, seq![Shift]))
            .with(Level::Five, Redirect::of(Key::Right, seq![Control]))
            .with(Level::Six, Redirect::of(Key::Right, seq![Control, Shift])),
        EightLevelKeyView::plain(Key::G, "g"@, "G"@)
            .with(Level::Three, Redirect::of(Key::Esc, seq![])),
        EightLevelKeyView::plain(Key::H, "h"@, "H"@),
        EightLevelKeyView::plain(Key::J, "j"@, "J"@),
        EightLevelKeyView::plain(Key::K, "k"@, "K"@),
        EightLevelKeyView::plain(Key::L, "l"@, "L"@),
        EightLevelKeyView::plain(Key::Semicolon, "semicolon"@, "colon"@),
        EightLevelKeyView::plain(Key::Apostrophe, "apostrophe"@, "quotedbl"@),
        EightLevelKeyView::plain(Key::Z, "z"@, "Z"@),
        EightLevelKeyView::plain(Key::X, "x"@, "X"@),
        EightLevelKeyView::plain(Key::C, "c"@, "C"@),
        EightLevelKeyView::plain(Key::V, "v"@, "V"@),
        EightLevelKeyView::plain(Key::B, "b"@, "B"@)
            .with(Level::Three, Redirect::of(Key::Left, seq![]))
            .with(Level::Four, Redirect::of(Key::Left, seq![Shift]))
            .with(Level::Five, Redirect::of(Key::Left, seq![Control]))
            .with(Level::Six, Redirect::of(Key::Left, seq![Control, Shift])),
        EightLevelKeyView::plain(Key::N, "n"@, "N"@)
            .with(Level::Three, Redirect::of(Key::Down, seq![]))
            .with(Level::Four, Redirect::of(Key::Down, seq![Shift]))
            .with(Level::Five, Redirect::of(Key::PageDown, seq![]))
            .with(Level::Six, Redirect::of(Key::PageDown, seq![Shift])),
        EightLevelKeyView::plain(Key::M, "m"@, "M"@),
        EightLevelKeyView::plain(Key::Comma, "comma"@, "less"@)
            .with(Level::Six, Redirect::of(Key::Home, seq![Control])),
        EightLevelKeyView::plain(Key::Period, "period"@, "greater"@)
            .with(Level::Six, Redirect::of(Key::End, seq![Control])),
        EightLevelKeyView::plain(Key::Slash, "slash"@, "question"@),
    ]
}

/// The layout: one definition for each key that it customizes.
pub fn get_keys() -> (keys: Vec<EightLevelKey>)
    ensures
        keys@.len() == 61,
        keys.deep_view() == standard_layout(),
{
    broadcast use ModSet::lemma_of_listed;

    let keys = vec![
        EightLevelKey::lv2(Key::Backslash, "backslash", "bar"),
        EightLevelKey::lv2(Key::Space, "space", "space"),
        EightLevelKey::lv2(Key::Backspace, "BackSpace", "BackSpace")
            .with(Level::Three, Redirect::new(Key::Backspace, vec![Control, Shift]))
            .with(Level::Five, Redirect::new(Key::Backspace, vec![Control])),
        EightLevelKey::lv2(Key::Tab, "Tab", "ISO_Left_Tab"),
        EightLevelKey::lv2(Key::Return, "Return", "Return"),
        EightLevelKey::lv2(Key::Insert, "Insert", "Insert"),
        EightLevelKey::lv2(Key::Delete, "Delete", "Delete")
            .with(Level::Three, Redirect::new(Key::Delete, vec![Control, Shift]))
            .with(Level::Five, Redirect::new(Key::Delete, vec![Control])),
        EightLevelKey::lv2(Key::Home, "Home", "Home"),
        EightLevelKey::lv2(Key::End, "End", "End"),
        EightLevelKey::lv2(Key::PageUp, "Prior", "Prior"),
        EightLevelKey::lv2(Key::PageDown, "Next", "Next"),
        EightLevelKey::lv2(Key::Up, "Up", "Up")
            .with(Level::Three, Redirect::new(Key::Home, vec![Control]))
            .with(Level::Four, Redirect::new(Key::Home, vec![Control, Shift]))
            .with(Level::Five, Redirect::new(Key::PageUp, vec![]))
            .with(Level::Six, Redirect::new(Key::PageUp, vec![Shift])),
        EightLevelKey::lv2(Key::Left, "Left", "Left")
            .with(Level::Three, Redirect::new(Key::Home, vec![]))
            .with(Level::Four, Redirect::new(Key::Home, vec![Shift]))
            .with(Level::Five, Redirect::new(Key::Left, vec![Control]))
            .with(Level::Six, Redirect::new(Key::Left, vec![Control, Shift])),
        EightLevelKey::lv2(Key::Down, "Down", "Down")
            .with(Level::Three, Redirect::new(Key::End, vec![Control]))
            .with(Level::Four, Redirect::new(Key::End, vec![Control, Shift]))
            .with(Level::Five, Redirect::new(Key::PageDown, vec![]))
            .with(Level::Six, Redirect::new(Key::PageDown, vec![Shift])),
        EightLevelKey::lv2(Key::Right, "Right", "Right")
            .with(Level::Three, Redirect::new(Key::End, vec![]))
            .with(Level::Four, Redirect::new(Key::End, vec![Shift]))
            .with(Level::Five, Redirect::new(Key::Right, vec![Control]))
            .with(Level::Six, Redirect::new(Key::Right, vec![Control, Shift])),
        EightLevelKey::lv2(Key::Tilde, "grave", "asciitilde"),
        EightLevelKey::lv2(Key::Num1, "1", "exclam"),
        EightLevelKey::lv2(Key::Num2, "2", "at"),
        EightLevelKey::lv2(Key::Num3, "3", "numbersign"),
        EightLevelKey::lv2(Key::Num4, "4", "dollar"),
        EightLevelKey::lv2(Key::Num5, "5", "percent"),
        EightLevelKey::lv2(Key::Num6, "6", "asciicircum"),
        EightLevelKey::lv2(Key::Num7, "7", "ampersand"),
        EightLevelKey::lv2(Key::Num8, "8", "asterisk"),
        EightLevelKey::lv2(Key::Num9, "9", "parenleft"),
        EightLevelKey::lv2(Key::Num0, "0", "parenright"),
        EightLevelKey::lv2(Key::Minus, "minus", "underscore"),
        EightLevelKey::lv2(Key::Equal, "equal", "plus"),
        EightLevelKey::lv2(Key::Q, "q", "Q"),
        EightLevelKey::lv2(Key::W, "w", "W"),
        EightLevelKey::lv2(Key::E, "e", "E")
            .with(Level::Three, Redirect::new(Key::End, vec![]))
            .with(Level::Four, Redirect::new(Key::End, vec![Shift])),
        EightLevelKey::lv2(Key::R, "r", "R"),
        EightLevelKey::lv2(Key::T, "t", "T"),
        EightLevelKey::lv2(Key::Y, "y", "Y"),
        EightLevelKey::lv2(Key::U, "u", "U"),
        EightLevelKey::lv2(Key::I, "i", "I"),
        EightLevelKey::lv2(Key::O, "o", "O"),
        EightLevelKey::lv2(Key::P, "p", "P")
            .with(Level::Three, Redirect::new(Key::Up, vec![]))
            .with(Level::Four, Redirect::new(Key::Up, vec![Shift]))
            .with(Level::Five, Redirect::new(Key::PageUp, vec![]))
            .with(Level::Six, Redirect::new(Key::PageUp, vec![Shift])),
        EightLevelKey::lv2(Key::BracketLeft, "bracketleft", "braceleft"),
        EightLevelKey::lv2(Key::BracketRight, "bracketright", "braceright"),
        EightLevelKey::lv2(Key::A, "a", "A")
            .with(Level::Three, Redirect::new(Key::Home, vec![]))
            .with(Level::Four, Redirect::new(Key::Home, vec![Shift])),
        EightLevelKey::lv2(Key::S, "s", "S"),
        EightLevelKey::lv2(Key::D, "d", "D")
            .with(Level::Three, Redirect::new(Key::Delete, vec![]))
            .with(Level::Five, Redirect::new(Key::Delete, vec![Control])),
        EightLevelKey::lv2(Key::F, "f", "F")
            .with(Level::Three, Redirect::new(Key::Right, vec![]))
            .with(Level::Four, Redirect::new(Key::Right, vec![Shift]))
            .with(Level::Five, Redirect::new(Key::Right, vec![Control]))
            .with(Level::Six, Redirect::new(Key::Right, vec![Control, Shift])),
        EightLevelKey::lv2(Key::G, "g", "G")
            .with(Level::Three, Redirect::new(Key::Esc, vec![])),
        EightLevelKey::lv2(Key::H, "h", "H"),
        EightLevelKey::lv2(Key::J, "j", "J"),
        EightLevelKey::lv2(Key::K, "k", "K"),
        EightLevelKey::lv2(Key::L, "l", "L"),
        EightLevelKey::lv2(Key::Semicolon, "semicolon", "colon"),
        EightLevelKey::lv2(Key::Apostrophe, "apostrophe", "quotedbl"),
        EightLevelKey::lv2(Key::Z, "z", "Z"),
        EightLevelKey::lv2(Key::X, "x", "X"),
        EightLevelKey::lv2(Key::C, "c", "C"),
        EightLevelKey::lv2(Key::V, "v", "V"),
        EightLevelKey::lv2(Key::B, "b", "B")
            .with(Level::Three, Redirect::new(Key::Left, vec![]))
            .with(Level::Four, Redirect::new(Key::Left, vec![Shift]))
            .with(Level::Five, Redirect::new(Key::Left, vec![Control]))
            .with(Level::Six, Redirect::new(Key::Left, vec![Control, Shift])),
        EightLevelKey::lv2(Key::N, "n", "N")
            .with(Level::Three, Redirect::new(Key::Down, vec![]))
            .with(Level::Four, Redirect::new(Key::Down, vec![Shift]))
            .with(Level::Five, Redirect::new(Key::PageDown, vec![]))
            .with(Level::Six, Redirect::new(Key::PageDown, vec![Shift])),
        EightLevelKey::lv2(Key::M, "m", "M"),
        EightLevelKey::lv2(Key::Comma, "comma", "less")
            .with(Level::Six, Redirect::new(Key::Home, vec![Control])),
        EightLevelKey::lv2(Key::Period, "period", "greater")
            .with(Level::Six, Redirect::new(Key::End, vec![Control])),
        EightLevelKey::lv2(Key::Slash, "slash", "question"),
    ];
    assert(keys.deep_view() =~= standard_layout());
    keys
}

/// The layout defines sixty-one keys, and each of them once.
pub proof fn law_every_key_once(i: int, j: int)
    requires
        0 <= i < j < standard_layout().len(),
    ensures
        standard_layout().len() == 61,
        standard_layout()[i].key != standard_layout()[j].key,
{
}

/// No symbol name of the layout holds a line feed, so every key of the layout
/// is written as a block of fourteen lines.
pub proof fn law_names_in_one_line(i: int)
    requires
        0 <= i < standard_layout().len(),
    ensures
        free_of(standard_layout()[i].lv1, '\n'),
        free_of(standard_layout()[i].lv2, '\n'),
        split_lines(standard_layout()[i].rendered()) == standard_layout()[i].block_lines(),
{
    assert(free_of("backslash"@, '\n')) by { reveal_strlit("backslash"); }
    assert(free_of("bar"@, '\n')) by { reveal_strlit("bar"); }
    assert(free_of("space"@, '\n')) by { reveal_strlit("space"); }
    assert(free_of("BackSpace"@, '\n')) by { reveal_strlit("BackSpace"); }
    assert(free_of("Tab"@, '\n')) by { reveal_strlit("Tab"); }
    assert(free_of("ISO_Left_Tab"@, '\n')) by { reveal_strlit("ISO_Left_Tab"); }
    assert(free_of("Return"@, '\n')) by { reveal_strlit("Return"); }
    assert(free_of("Insert"@, '\n')) by { reveal_strlit("Insert"); }
    assert(free_of("Delete"@, '\n')) by { reveal_strlit("Delete"); }
    assert(free_of("Home"@, '\n')) by { reveal_strlit("Home"); }
    assert(free_of("End"@, '\n')) by { reveal_strlit("End"); }
    assert(free_of("Prior"@, '\n')) by { reveal_strlit("Prior"); }
    assert(free_of("Next"@, '\n')) by { reveal_strlit("Next"); }
    assert(free_of("Up"@, '\n')) by { reveal_strlit("Up"); }
    assert(free_of("Left"@, '\n')) by { reveal_strlit("Left"); }
    assert(free_of("Down"@, '\n')) by { reveal_strlit("Down"); }
    assert(free_of("Right"@, '\n')) by { reveal_strlit("Right"); }
    assert(free_of("grave"@, '\n')) by { reveal_strlit("grave"); }
    assert(free_of("asciitilde"@, '\n')) by { reveal_strlit("asciitilde"); }
    assert(free_of("1"@, '\n')) by { reveal_strlit("1"); }
    assert(free_of("exclam"@, '\n')) by { reveal_strlit("exclam"); }
    assert(free_of("2"@, '\n')) by { reveal_strlit("2"); }
    assert(free_of("at"@, '\n')) by { reveal_strlit("at"); }
    assert(free_of("3"@, '\n')) by { reveal_strlit("3"); }
    assert(free_of("numbersign"@, '\n')) by { reveal_strlit("numbersign"); }
    assert(free_of("4"@, '\n')) by { reveal_strlit("4"); }
    assert(free_of("dollar"@, '\n')) by { reveal_strlit("dollar"); }
    assert(free_of("5"@, '\n')) by { reveal_strlit("5"); }
    assert(free_of("percent"@, '\n')) by { reveal_strlit("percent"); }
    assert(free_of("6"@, '\n')) by { reveal_strlit("6"); }
    assert(free_of("asciicircum"@, '\n')) by { reveal_strlit("asciicircum"); }
    assert(free_of("7"@, '\n')) by { reveal_strlit("7"); }
    assert(free_of("ampersand"@, '\n')) by { reveal_strlit("ampersand"); }
    assert(free_of("8"@, '\n')) by { reveal_strlit("8"); }
    assert(free_of("asterisk"@, '\n')) by { reveal_strlit("asterisk"); }
    assert(free_of("9"@, '\n')) by { reveal_strlit("9"); }
    assert(free_of("parenleft"@, '\n')) by { reveal_strlit("parenleft"); }
    assert(free_of("0"@, '\n')) by { reveal_strlit("0"); }
    assert(free_of("parenright"@, '\n')) by { reveal_strlit("parenright"); }
    assert(free_of("minus"@, '\n')) by { reveal_strlit("minus"); }
    assert(free_of("underscore"@, '\n')) by { reveal_strlit("underscore"); }
    assert(free_of("equal"@, '\n')) by { reveal_strlit("equal"); }
    assert(free_of("plus"@, '\n')) by { reveal_strlit("plus"); }
    assert(free_of("q"@, '\n')) by { reveal_strlit("q"); }
    assert(free_of("Q"@, '\n')) by { reveal_strlit("Q"); }
    assert(free_of("w"@, '\n')) by { reveal_strlit("w"); }
    assert(free_of("W"@, '\n')) by { reveal_strlit("W"); }
    assert(free_of("e"@, '\n')) by { reveal_strlit("e"); }
    assert(free_of("E"@, '\n')) by { reveal_strlit("E"); }
    assert(free_of("r"@, '\n')) by { reveal_strlit("r"); }
    assert(free_of("R"@, '\n')) by { reveal_strlit("R"); }
    assert(free_of("t"@, '\n')) by { reveal_strlit("t"); }
    assert(free_of("T"@, '\n')) by { reveal_strlit("T"); }
    assert(free_of("y"@, '\n')) by { reveal_strlit("y"); }
    assert(free_of("Y"@, '\n')) by { reveal_strlit("Y"); }
    assert(free_of("u"@, '\n')) by { reveal_strlit("u"); }
    assert(free_of("U"@, '\n')) by { reveal_strlit("U"); }
    assert(free_of("i"@, '\n')) by { reveal_strlit("i"); }
    assert(free_of("I"@, '\n')) by { reveal_strlit("I"); }
    assert(free_of("o"@, '\n')) by { reveal_strlit("o"); }
    assert(free_of("O"@, '\n')) by { reveal_strlit("O"); }
    assert(free_of("p"@, '\n')) by { reveal_strlit("p"); }
    assert(free_of("P"@, '\n')) by { reveal_strlit("P"); }
    assert(free_of("bracketleft"@, '\n')) by { reveal_strlit("bracketleft"); }
    assert(free_of("braceleft"@, '\n')) by { reveal_strlit("braceleft"); }
    assert(free_of("bracketright"@, '\n')) by { reveal_strlit("bracketright"); }
    assert(free_of("braceright"@, '\n')) by { reveal_strlit("braceright"); }
    assert(free_of("a"@, '\n')) by { reveal_strlit("a"); }
    assert(free_of("A"@, '\n')) by { reveal_strlit("A"); }
    assert(free_of("s"@, '\n')) by { reveal_strlit("s"); }
    assert(free_of("S"@, '\n')) by { reveal_strlit("S"); }
    assert(free_of("d"@, '\n')) by { reveal_strlit("d"); }
    assert(free_of("D"@, '\n')) by { reveal_strlit("D"); }
    assert(free_of("f"@, '\n')) by { reveal_strlit("f"); }
    assert(free_of("F"@, '\n')) by { reveal_strlit("F"); }
    assert(free_of("g"@, '\n')) by { reveal_strlit("g"); }
    assert(free_of("G"@, '\n')) by { reveal_strlit("G"); }
    assert(free_of("h"@, '\n')) by { reveal_strlit("h"); }
    assert(free_of("H"@, '\n')) by { reveal_strlit("H"); }
    assert(free_of("j"@, '\n')) by { reveal_strlit("j"); }
    assert(free_of("J"@, '\n')) by { reveal_strlit("J"); }
    assert(free_of("k"@, '\n')) by { reveal_strlit("k"); }
    assert(free_of("K"@, '\n')) by { reveal_strlit("K"); }
    assert(free_of("l"@, '\n')) by { reveal_strlit("l"); }
    assert(free_of("L"@, '\n')) by { reveal_strlit("L"); }
    assert(free_of("semicolon"@, '\n')) by { reveal_strlit("semicolon"); }
    assert(free_of("colon"@, '\n')) by { reveal_strlit("colon"); }
    assert(free_of("apostrophe"@, '\n')) by { reveal_strlit("apostrophe"); }
    assert(free_of("quotedbl"@, '\n')) by { reveal_strlit("quotedbl"); }
    assert(free_of("z"@, '\n')) by { reveal_strlit("z"); }
    assert(free_of("Z"@, '\n')) by { reveal_strlit("Z"); }
    assert(free_of("x"@, '\n')) by { reveal_strlit("x"); }
    assert(free_of("X"@, '\n')) by { reveal_strlit("X"); }
    assert(free_of("c"@, '\n')) by { reveal_strlit("c"); }
    assert(free_of("C"@, '\n')) by { reveal_strlit("C"); }
    assert(free_of("v"@, '\n')) by { reveal_strlit("v"); }
    assert(free_of("V"@, '\n')) by { reveal_strlit("V"); }
    assert(free_of("b"@, '\n')) by { reveal_strlit("b"); }
    assert(free_of("B"@, '\n')) by { reveal_strlit("B"); }
    assert(free_of("n"@, '\n')) by { reveal_strlit("n"); }
    assert(free_of("N"@, '\n')) by { reveal_strlit("N"); }
    assert(free_of("m"@, '\n')) by { reveal_strlit("m"); }
    assert(free_of("M"@, '\n')) by { reveal_strlit("M"); }
    assert(free_of("comma"@, '\n')) by { reveal_strlit("comma"); }
    assert(free_of("less"@, '\n')) by { reveal_strlit("less"); }
    assert(free_of("period"@, '\n')) by { reveal_strlit("period"); }
    assert(free_of("greater"@, '\n')) by { reveal_strlit("greater"); }
    assert(free_of("slash"@, '\n')) by { reveal_strlit("slash"); }
    assert(free_of("question"@, '\n')) by { reveal_strlit("question"); }
    law_block_lines(standard_layout()[i]);
}

} // verus!
