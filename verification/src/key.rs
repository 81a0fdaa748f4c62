//! The catalog of physical keys: a closed set of positions, each named by the
//! short code that XKB uses for it.

use crate::text::{free_of, lemma_free_of_concat};
use vstd::prelude::*;
use vstd::string::*;

verus! {

/// A position on the keyboard.
#[derive(Clone, Copy, Debug, PartialEq, Eq, Structural)]
pub enum Key {
    // Escape
    Esc,
    // Navigation and editing cluster
    Up,
    Left,
    Down,
    Right,
    Space,
    Insert,
    Delete,
    Home,
    End,
    PageUp,
    PageDown,
    // Digit row
    Tilde,
    Num1,
    Num2,
    Num3,
    Num4,
    Num5,
    Num6,
    Num7,
    Num8,
    Num9,
    Num0,
    Minus,
    Equal,
    Backspace,
    // Upper letter row
    Tab,
    Q,
    W,
    E,
    R,
    T,
    Y,
    U,
    I,
    O,
    P,
    BracketLeft,
    BracketRight,
    Backslash,
    // Home row
    A,
    S,
    D,
    F,
    G,
    H,
    J,
    K,
    L,
    Semicolon,
    Apostrophe,
    Return,
    // Lower letter row
    Z,
    X,
    C,
    V,
    B,
    N,
    M,
    Comma,
    Period,
    Slash,
}

/// Whether `c` is an upper-case ASCII letter or an ASCII digit.
pub open spec fn is_code_char(c: char) -> bool {
    ('A' <= c && c <= 'Z') || ('0' <= c && c <= '9')
}

impl Key {
    /// The code that names the position.
    pub open spec fn code_text(self) -> Seq<char> {
        match self {
            Key::Esc => "ESC"@,
            Key::Up => "UP"@,
            Key::Left => "LEFT"@,
            Key::Down => "DOWN"@,
            Key::Right => "RGHT"@,
            Key::Space => "SPCE"@,
            Key::Insert => "INS"@,
            Key::Delete => "DELE"@,
            Key::Home => "HOME"@,
            Key::End => "END"@,
            Key::PageUp => "PGUP"@,
            Key::PageDown => "PGDN"@,
            Key::Tilde => "TLDE"@,
            Key::Num1 => "AE01"@,
            Key::Num2 => "AE02"@,
            Key::Num3 => "AE03"@,
            Key::Num4 => "AE04"@,
            Key::Num5 => "AE05"@,
            Key::Num6 => "AE06"@,
            Key::Num7 => "AE07"@,
            Key::Num8 => "AE08"@,
            Key::Num9 => "AE09"@,
            Key::Num0 => "AE10"@,
            Key::Minus => "AE11"@,
            Key::Equal => "AE12"@,
            Key::Backspace => "BKSP"@,
            Key::Tab => "TAB"@,
            Key::Q => "AD01"@,
            Key::W => "AD02"@,
            Key::E => "AD03"@,
            Key::R => "AD04"@,
            Key::T => "AD05"@,
            Key::Y => "AD06"@,
            Key::U => "AD07"@,
            Key::I => "AD08"@,
            Key::O => "AD09"@,
            Key::P => "AD10"@,
            Key::BracketLeft => "AD11"@,
            Key::BracketRight => "AD12"@,
            Key::Backslash => "BKSL"@,
            Key::A => "AC01"@,
            Key::S => "AC02"@,
            Key::D => "AC03"@,
            Key::F => "AC04"@,
            Key::G => "AC05"@,
            Key::H => "AC06"@,
            Key::J => "AC07"@,
            Key::K => "AC08"@,
            Key::L => "AC09"@,
            Key::Semicolon => "AC10"@,
            Key::Apostrophe => "AC11"@,
            Key::Return => "RTRN"@,
            Key::Z => "AB01"@,
            Key::X => "AB02"@,
            Key::C => "AB03"@,
            Key::V => "AB04"@,
            Key::B => "AB05"@,
            Key::N => "AB06"@,
            Key::M => "AB07"@,
            Key::Comma => "AB08"@,
            Key::Period => "AB09"@,
            Key::Slash => "AB10"@,
        }
    }

    /// How the key is written in a keymap: its code in angle brackets.
    pub open spec fn rendered(self) -> Seq<char> {
        "<"@ + self.code_text() + ">"@
    }

    /// The code that names the position.
    pub fn code(&self) -> (s: &'static str)
        ensures
            s@ == self.code_text(),
    {
        match self {
            Key::Esc => "ESC",
            Key::Up => "UP",
            Key::Left => "LEFT",
            Key::Down => "DOWN",
            Key::Right => "RGHT",
            Key::Space => "SPCE",
            Key::Insert => "INS",
            Key::Delete => "DELE",
            Key::Home => "HOME",
            Key::End => "END",
            Key::PageUp => "PGUP",
            Key::PageDown => "PGDN",
            Key::Tilde => "TLDE",
            Key::Num1 => "AE01",
            Key::Num2 => "AE02",
            Key::Num3 => "AE03",
            Key::Num4 => "AE04",
            Key::Num5 => "AE05",
            Key::Num6 => "AE06",
            Key::Num7 => "AE07",
            Key::Num8 => "AE08",
            Key::Num9 => "AE09",
            Key::Num0 => "AE10",
            Key::Minus => "AE11",
            Key::Equal => "AE12",
            Key::Backspace => "BKSP",
            Key::Tab => "TAB",
            Key::Q => "AD01",
            Key::W => "AD02",
            Key::E => "AD03",
            Key::R => "AD04",
            Key::T => "AD05",
            Key::Y => "AD06",
            Key::U => "AD07",
            Key::I => "AD08",
            Key::O => "AD09",
            Key::P => "AD10",
            Key::BracketLeft => "AD11",
            Key::BracketRight => "AD12",
            Key::Backslash => "BKSL",
            Key::A => "AC01",
            Key::S => "AC02",
            Key::D => "AC03",
            Key::F => "AC04",
            Key::G => "AC05",
            Key::H => "AC06",
            Key::J => "AC07",
            Key::K => "AC08",
            Key::L => "AC09",
            Key::Semicolon => "AC10",
            Key::Apostrophe => "AC11",
            Key::Return => "RTRN",
            Key::Z => "AB01",
            Key::X => "AB02",
            Key::C => "AB03",
            Key::V => "AB04",
            Key::B => "AB05",
            Key::N => "AB06",
            Key::M => "AB07",
            Key::Comma => "AB08",
            Key::Period => "AB09",
            Key::Slash => "AB10",
        }
    }

    /// Writes the key: its code in angle brackets.
    pub fn render(&self) -> (s: String)
        ensures
            s@ == self.rendered(),
    {
        String::from_str("<").concat(self.code()).concat(">")
    }

    /// A character that is no upper-case letter, no digit and no angle bracket
    /// is nowhere in a written key.
    pub proof fn lemma_rendered_free_of(self, c: char)
        requires
            !is_code_char(c),
            c != '<',
            c != '>',
        ensures
            free_of(self.rendered(), c),
    {
        reveal_strlit("<");
        reveal_strlit(">");
        self.lemma_code_shape();
        let code = self.code_text();
        assert forall|i: int| 0 <= i < code.len() implies code[i] != c by {
            assert(is_code_char(code[i]));
        }
        lemma_free_of_concat("<"@, code, c);
        lemma_free_of_concat("<"@ + code, ">"@, c);
    }

    /// Every code is two to four characters long and made of upper-case
    /// letters and digits only.
    pub proof fn lemma_code_shape(self)
        ensures
            2 <= self.code_text().len() <= 4,
            forall|i: int|
                0 <= i < self.code_text().len() ==> is_code_char(#[trigger] self.code_text()[i]),
    {
        match self {
            Key::Esc => reveal_strlit("ESC"),
            Key::Up => reveal_strlit("UP"),
            Key::Left => reveal_strlit("LEFT"),
            Key::Down => reveal_strlit("DOWN"),
            Key::Right => reveal_strlit("RGHT"),
            Key::Space => reveal_strlit("SPCE"),
            Key::Insert => reveal_strlit("INS"),
            Key::Delete => reveal_strlit("DELE"),
            Key::Home => reveal_strlit("HOME"),
            Key::End => reveal_strlit("END"),
            Key::PageUp => reveal_strlit("PGUP"),
            Key::PageDown => reveal_strlit("PGDN"),
            Key::Tilde => reveal_strlit("TLDE"),
            Key::Num1 => reveal_strlit("AE01"),
            Key::Num2 => reveal_strlit("AE02"),
            Key::Num3 => reveal_strlit("AE03"),
            Key::Num4 => reveal_strlit("AE04"),
            Key::Num5 => reveal_strlit("AE05"),
            Key::Num6 => reveal_strlit("AE06"),
            Key::Num7 => reveal_strlit("AE07"),
            Key::Num8 => reveal_strlit("AE08"),
            Key::Num9 => reveal_strlit("AE09"),
            Key::Num0 => reveal_strlit("AE10"),
            Key::Minus => reveal_strlit("AE11"),
            Key::Equal => reveal_strlit("AE12"),
            Key::Backspace => reveal_strlit("BKSP"),
            Key::Tab => reveal_strlit("TAB"),
            Key::Q => reveal_strlit("AD01"),
            Key::W => reveal_strlit("AD02"),
            Key::E => reveal_strlit("AD03"),
            Key::R => reveal_strlit("AD04"),
            Key::T => reveal_strlit("AD05"),
            Key::Y => reveal_strlit("AD06"),
            Key::U => reveal_strlit("AD07"),
            Key::I => reveal_strlit("AD08"),
            Key::O => reveal_strlit("AD09"),
            Key::P => reveal_strlit("AD10"),
            Key::BracketLeft => reveal_strlit("AD11"),
            Key::BracketRight => reveal_strlit("AD12"),
            Key::Backslash => reveal_strlit("BKSL"),
            Key::A => reveal_strlit("AC01"),
            Key::S => reveal_strlit("AC02"),
            Key::D => reveal_strlit("AC03"),
            Key::F => reveal_strlit("AC04"),
            Key::G => reveal_strlit("AC05"),
            Key::H => reveal_strlit("AC06"),
            Key::J => reveal_strlit("AC07"),
            Key::K => reveal_strlit("AC08"),
            Key::L => reveal_strlit("AC09"),
            Key::Semicolon => reveal_strlit("AC10"),
            Key::Apostrophe => reveal_strlit("AC11"),
            Key::Return => reveal_strlit("RTRN"),
            Key::Z => reveal_strlit("AB01"),
            Key::X => reveal_strlit("AB02"),
            Key::C => reveal_strlit("AB03"),
            Key::V => reveal_strlit("AB04"),
            Key::B => reveal_strlit("AB05"),
            Key::N => reveal_strlit("AB06"),
            Key::M => reveal_strlit("AB07"),
            Key::Comma => reveal_strlit("AB08"),
            Key::Period => reveal_strlit("AB09"),
            Key::Slash => reveal_strlit("AB10"),
        }
    }
}

} // verus!
