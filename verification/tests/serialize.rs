use xkb_keymap::{
    get_keys, serialize, write_section, EightLevelKey, Key, Level, Mod, Redirect, CLOSING,
    FRAGMENTS, MARGIN, PREAMBLE,
};

const EXPECTED_PREAMBLE: &str = r#"// Generated
partial alphanumeric_keys modifier_keys
xkb_symbols "basic" {

  include "us"
  include "level5(modifier_mapping)"
"#;

const EXPECTED_FRAGMENTS: &str = r#"
partial modifier_keys
xkb_symbols "lalt_as_lv3" {
  key <LALT> {[ISO_Level3_Shift, ISO_Level3_Shift]};
};

partial modifier_keys
xkb_symbols "lwin_as_lv5" {
  key <LWIN> {[ISO_Level5_Shift]};
};

partial modifier_keys
xkb_symbols "lctrl_as_lwin" {
  key <LCTL> {[Super_L]};
  modifier_map Mod4 {<LCTL>};
};

partial modifier_keys
xkb_symbols "ralt_as_rctrl" {
  key <RALT> {[Control_R, Control_R]};
  modifier_map Control {<RALT>};
};

partial modifier_keys
xkb_symbols "prtsc_as_ralt" {
  key <PRSC> {[Alt_R, Meta_R]};
  modifier_map Mod1 {<PRSC>};
};

partial modifier_keys
xkb_symbols "rwin_as_ralt" {
  key <RWIN> {[Alt_R, Meta_R]};
  modifier_map Mod1 {<RWIN>};
};

partial modifier_keys
xkb_symbols "rctrl_as_rwin" {
  key <RCTL> {[Super_R]};
  modifier_map Mod4 {<RCTL>};
};

"#;

const EXPECTED_G: &str = r#"
  key <AC05> {
    type="EIGHT_LEVEL",
    symbols=[g, G],
    actions=[
      NoAction(),
      NoAction(),
      Redirect(key=<ESC>, clearmods=All),
      Redirect(key=<AC05>, clearmods=All, mods=Control+Shift),
      Redirect(key=<AC05>, clearmods=All, mods=Alt),
      Redirect(key=<AC05>, clearmods=All, mods=Shift+Alt),
      Redirect(key=<AC05>, clearmods=All, mods=Control+Alt),
      Redirect(key=<AC05>, clearmods=All, mods=Control+Shift+Alt)
    ]
  };
"#;

const EXPECTED_TAB: &str = r#"
  key <TAB> {
    type="EIGHT_LEVEL",
    symbols=[Tab, ISO_Left_Tab],
    actions=[
      NoAction(),
      NoAction(),
      Redirect(key=<TAB>, clearmods=All, mods=Control),
      Redirect(key=<TAB>, clearmods=All, mods=Control+Shift),
      Redirect(key=<TAB>, clearmods=All, mods=Alt),
      Redirect(key=<TAB>, clearmods=All, mods=Shift+Alt),
      Redirect(key=<TAB>, clearmods=All, mods=Control+Alt),
      Redirect(key=<TAB>, clearmods=All, mods=Control+Shift+Alt)
    ]
  };
"#;

fn g() -> EightLevelKey {
    EightLevelKey::lv2(Key::G, "g", "G").with(Level::Three, Redirect::new(Key::Esc, vec![]))
}

fn tab() -> EightLevelKey {
    EightLevelKey::lv2(Key::Tab, "Tab", "ISO_Left_Tab")
}

fn names(mods: &[Mod]) -> String {
    let mut out = Vec::new();
    for m in [Mod::Control, Mod::Shift, Mod::Alt].iter() {
        if mods.contains(m) {
            out.push(match m {
                Mod::Control => "Control",
                Mod::Shift => "Shift",
                Mod::Alt => "Alt",
            });
        }
    }
    out.join("+")
}

fn action(given: Option<Redirect>, key: Key, defaults: &[Mod]) -> String {
    let (target, held) = match given {
        Some(a) => {
            let mut held = Vec::new();
            if a.mods.control {
                held.push(Mod::Control);
            }
            if a.mods.shift {
                held.push(Mod::Shift);
            }
            if a.mods.alt {
                held.push(Mod::Alt);
            }
            (a.key, held)
        }
        None => (key, defaults.to_vec()),
    };
    if held.is_empty() {
        format!("Redirect(key=<{}>, clearmods=All)", target.code())
    } else {
        format!("Redirect(key=<{}>, clearmods=All, mods={})", target.code(), names(&held))
    }
}

fn expected_document(table: &[EightLevelKey]) -> String {
    let mut out = String::from(EXPECTED_PREAMBLE);
    for def in table.iter() {
        out.push_str(&format!("\n  key <{}> {{\n", def.key.code()));
        out.push_str("    type=\"EIGHT_LEVEL\",\n");
        out.push_str(&format!("    symbols=[{}, {}],\n", def.lv1, def.lv2));
        out.push_str("    actions=[\n      NoAction(),\n      NoAction(),\n");
        let defaults: [&[Mod]; 6] = [
            &[Mod::Control],
            &[Mod::Control, Mod::Shift],
            &[Mod::Alt],
            &[Mod::Alt, Mod::Shift],
            &[Mod::Control, Mod::Alt],
            &[Mod::Control, Mod::Alt, Mod::Shift],
        ];
        let given = [def.lv3, def.lv4, def.lv5, def.lv6, def.lv7, def.lv8];
        for level in 0..6 {
            let end = if level < 5 { ",\n" } else { "\n" };
            out.push_str("      ");
            out.push_str(&action(given[level], def.key, defaults[level]));
            out.push_str(end);
        }
        out.push_str("    ]\n  };\n");
    }
    out.push_str("};\n");
    out.push_str(EXPECTED_FRAGMENTS);
    out
}

#[test]
fn the_fixed_texts() {
    assert_eq!(PREAMBLE, EXPECTED_PREAMBLE);
    assert_eq!(CLOSING, "};\n");
    assert_eq!(FRAGMENTS, EXPECTED_FRAGMENTS);
    assert_eq!(MARGIN, "  ");
}

#[test]
fn an_empty_layout_gives_the_fixed_texts_only() {
    let text = serialize(&vec![]);
    assert_eq!(text, format!("{}{}{}", EXPECTED_PREAMBLE, "};\n", EXPECTED_FRAGMENTS));
}

#[test]
fn a_layout_of_one_key() {
    let text = serialize(&vec![g()]);
    assert_eq!(
        text,
        format!("{}{}{}{}", EXPECTED_PREAMBLE, EXPECTED_G, "};\n", EXPECTED_FRAGMENTS)
    );
}

#[test]
fn a_layout_of_two_keys_keeps_their_order() {
    let forth = serialize(&vec![g(), tab()]);
    let back = serialize(&vec![tab(), g()]);
    assert_eq!(
        forth,
        format!(
            "{}{}{}{}{}",
            EXPECTED_PREAMBLE, EXPECTED_G, EXPECTED_TAB, "};\n", EXPECTED_FRAGMENTS
        )
    );
    assert_eq!(
        back,
        format!(
            "{}{}{}{}{}",
            EXPECTED_PREAMBLE, EXPECTED_TAB, EXPECTED_G, "};\n", EXPECTED_FRAGMENTS
        )
    );
}

#[test]
fn write_section_appends_to_what_is_there() {
    let mut out = String::from("before");
    write_section(&mut out, &g());
    assert_eq!(out, format!("before{}", EXPECTED_G));
    write_section(&mut out, &tab());
    assert_eq!(out, format!("before{}{}", EXPECTED_G, EXPECTED_TAB));
}

#[test]
fn serializing_twice_gives_the_same_text() {
    let table = get_keys();
    let first = serialize(&table);
    let second = serialize(&table);
    assert_eq!(first, second);
    assert_eq!(first, serialize(&get_keys()));
}

#[test]
fn the_standard_keymap() {
    let table = get_keys();
    assert_eq!(serialize(&table), expected_document(&table));
}

#[test]
fn the_standard_keymap_has_its_blocks_in_layout_order() {
    let table = get_keys();
    let text = serialize(&table);
    let mut at = EXPECTED_PREAMBLE.len();
    for def in table.iter() {
        let head = format!("\n  key <{}> {{\n", def.key.code());
        assert!(text[at..].starts_with(&head));
        assert_eq!(text.matches(&head).count(), 1);
        let end = text[at..].find("\n  };\n").unwrap() + "\n  };\n".len();
        assert_eq!(text[at..at + end].lines().count(), 15);
        at += end;
    }
    assert_eq!(&text[at..], format!("}};\n{}", EXPECTED_FRAGMENTS));
    assert_eq!(text[..at].matches("\n  key <").count(), 61);
}

#[test]
fn the_reversed_layout_gives_the_blocks_in_reverse() {
    let mut table = get_keys();
    table.reverse();
    let text = serialize(&table);
    let mut last = 0;
    for def in table.iter() {
        let at = text.find(&format!("\n  key <{}> {{\n", def.key.code())).unwrap();
        assert!(at > last);
        last = at;
    }
    assert_eq!(text, expected_document(&table));
}

#[test]
fn the_fragments_end_every_keymap() {
    let tables: [Vec<EightLevelKey>; 4] = [vec![], vec![g()], vec![tab(), g(), tab()], get_keys()];
    for table in tables.iter() {
        let text = serialize(table);
        assert!(text.starts_with(EXPECTED_PREAMBLE));
        assert!(text.ends_with(EXPECTED_FRAGMENTS));
        let before = &text[..text.len() - EXPECTED_FRAGMENTS.len()];
        assert!(before.ends_with("};\n"));
    }
}

#[test]
fn symbol_names_with_line_breaks_are_indented_line_by_line() {
    let def = EightLevelKey::lv2(Key::A, "a\nb", "c\r\nd");
    let mut out = String::new();
    write_section(&mut out, &def);
    let mut expected = String::from("\n");
    for line in def.render().lines() {
        expected.push_str("  ");
        expected.push_str(line);
        expected.push('\n');
    }
    assert_eq!(out, expected);
    assert!(out.starts_with(
        "\n  key <AC01> {\n    type=\"EIGHT_LEVEL\",\n    symbols=[a\n  b, c\n  d],\n"
    ));
    assert_eq!(out.lines().count(), 17);
}
