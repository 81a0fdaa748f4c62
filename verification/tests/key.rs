use xkb_keymap::Key;

const ALL: [Key; 62] = [
    Key::Esc, Key::Up, Key::Left, Key::Down, Key::Right, Key::Space, Key::Insert, Key::Delete,
    Key::Home, Key::End, Key::PageUp, Key::PageDown, Key::Tilde, Key::Num1, Key::Num2, Key::Num3,
    Key::Num4, Key::Num5, Key::Num6, Key::Num7, Key::Num8, Key::Num9, Key::Num0, Key::Minus,
    Key::Equal, Key::Backspace, Key::Tab, Key::Q, Key::W, Key::E, Key::R, Key::T, Key::Y, Key::U,
    Key::I, Key::O, Key::P, Key::BracketLeft, Key::BracketRight, Key::Backslash, Key::A, Key::S,
    Key::D, Key::F, Key::G, Key::H, Key::J, Key::K, Key::L, Key::Semicolon, Key::Apostrophe,
    Key::Return, Key::Z, Key::X, Key::C, Key::V, Key::B, Key::N, Key::M, Key::Comma, Key::Period,
    Key::Slash,
];

#[test]
fn codes_of_the_navigation_cluster() {
    assert_eq!(Key::Esc.code(), "ESC");
    assert_eq!(Key::Up.code(), "UP");
    assert_eq!(Key::Left.code(), "LEFT");
    assert_eq!(Key::Down.code(), "DOWN");
    assert_eq!(Key::Right.code(), "RGHT");
    assert_eq!(Key::Space.code(), "SPCE");
    assert_eq!(Key::Insert.code(), "INS");
    assert_eq!(Key::Delete.code(), "DELE");
    assert_eq!(Key::Home.code(), "HOME");
    assert_eq!(Key::End.code(), "END");
    assert_eq!(Key::PageUp.code(), "PGUP");
    assert_eq!(Key::PageDown.code(), "PGDN");
    assert_eq!(Key::Backspace.code(), "BKSP");
    assert_eq!(Key::Tab.code(), "TAB");
    assert_eq!(Key::Return.code(), "RTRN");
    assert_eq!(Key::Backslash.code(), "BKSL");
    assert_eq!(Key::Tilde.code(), "TLDE");
}

#[test]
fn codes_of_the_rows() {
    let digits = [
        Key::Num1, Key::Num2, Key::Num3, Key::Num4, Key::Num5, Key::Num6, Key::Num7, Key::Num8,
        Key::Num9, Key::Num0, Key::Minus, Key::Equal,
    ];
    let upper = [
        Key::Q, Key::W, Key::E, Key::R, Key::T, Key::Y, Key::U, Key::I, Key::O, Key::P,
        Key::BracketLeft, Key::BracketRight,
    ];
    let home = [
        Key::A, Key::S, Key::D, Key::F, Key::G, Key::H, Key::J, Key::K, Key::L, Key::Semicolon,
        Key::Apostrophe,
    ];
    let lower = [
        Key::Z, Key::X, Key::C, Key::V, Key::B, Key::N, Key::M, Key::Comma, Key::Period,
        Key::Slash,
    ];
    for (i, key) in digits.iter().enumerate() {
        assert_eq!(key.code(), format!("AE{:02}", i + 1));
    }
    for (i, key) in upper.iter().enumerate() {
        assert_eq!(key.code(), format!("AD{:02}", i + 1));
    }
    for (i, key) in home.iter().enumerate() {
        assert_eq!(key.code(), format!("AC{:02}", i + 1));
    }
    for (i, key) in lower.iter().enumerate() {
        assert_eq!(key.code(), format!("AB{:02}", i + 1));
    }
}

#[test]
fn a_key_renders_as_its_code_in_angle_brackets() {
    assert_eq!(Key::G.render(), "<AC05>");
    assert_eq!(Key::Esc.render(), "<ESC>");
    assert_eq!(Key::Up.render(), "<UP>");
    for key in ALL.iter() {
        assert_eq!(key.render(), format!("<{}>", key.code()));
    }
}

#[test]
fn codes_are_short_upper_case_and_distinct() {
    for (i, key) in ALL.iter().enumerate() {
        let code = key.code();
        assert!(2 <= code.len() && code.len() <= 4);
        assert!(code.chars().all(|c| c.is_ascii_uppercase() || c.is_ascii_digit()));
        for other in ALL[..i].iter() {
            assert_ne!(other.code(), code);
        }
    }
}
