use xkb_keymap::{EightLevelKey, Key, Level, Mod, Redirect};

const LEVELS: [Level; 6] =
    [Level::Three, Level::Four, Level::Five, Level::Six, Level::Seven, Level::Eight];

fn default_mods(level: Level) -> Vec<Mod> {
    match level {
        Level::Three => vec![Mod::Control],
        Level::Four => vec![Mod::Control, Mod::Shift],
        Level::Five => vec![Mod::Alt],
        Level::Six => vec![Mod::Alt, Mod::Shift],
        Level::Seven => vec![Mod::Control, Mod::Alt],
        Level::Eight => vec![Mod::Control, Mod::Alt, Mod::Shift],
    }
}

#[test]
fn lv2_gives_no_action_for_any_level() {
    let def = EightLevelKey::lv2(Key::Tab, "Tab", "ISO_Left_Tab");
    assert_eq!(def.key, Key::Tab);
    assert_eq!(def.lv1, "Tab");
    assert_eq!(def.lv2, "ISO_Left_Tab");
    assert_eq!(def.lv3, None);
    assert_eq!(def.lv4, None);
    assert_eq!(def.lv5, None);
    assert_eq!(def.lv6, None);
    assert_eq!(def.lv7, None);
    assert_eq!(def.lv8, None);
}

#[test]
fn unspecified_levels_resolve_to_the_key_under_the_table_modifiers() {
    let def = EightLevelKey::lv2(Key::H, "h", "H");
    assert_eq!(def.lv3(), Redirect::new(Key::H, vec![Mod::Control]));
    assert_eq!(def.lv4(), Redirect::new(Key::H, vec![Mod::Control, Mod::Shift]));
    assert_eq!(def.lv5(), Redirect::new(Key::H, vec![Mod::Alt]));
    assert_eq!(def.lv6(), Redirect::new(Key::H, vec![Mod::Alt, Mod::Shift]));
    assert_eq!(def.lv7(), Redirect::new(Key::H, vec![Mod::Control, Mod::Alt]));
    assert_eq!(def.lv8(), Redirect::new(Key::H, vec![Mod::Control, Mod::Alt, Mod::Shift]));
    for level in LEVELS.iter() {
        assert_eq!(def.resolve(*level), Redirect::new(Key::H, default_mods(*level)));
    }
}

#[test]
fn default_actions_render_in_canonical_order() {
    let def = EightLevelKey::lv2(Key::H, "h", "H");
    assert_eq!(def.lv3().render(), "Redirect(key=<AC06>, clearmods=All, mods=Control)");
    assert_eq!(def.lv4().render(), "Redirect(key=<AC06>, clearmods=All, mods=Control+Shift)");
    assert_eq!(def.lv5().render(), "Redirect(key=<AC06>, clearmods=All, mods=Alt)");
    assert_eq!(def.lv6().render(), "Redirect(key=<AC06>, clearmods=All, mods=Shift+Alt)");
    assert_eq!(def.lv7().render(), "Redirect(key=<AC06>, clearmods=All, mods=Control+Alt)");
    assert_eq!(def.lv8().render(), "Redirect(key=<AC06>, clearmods=All, mods=Control+Shift+Alt)");
}

#[test]
fn an_explicit_action_wins_over_the_default() {
    for level in LEVELS.iter() {
        let action = Redirect::new(Key::Esc, vec![Mod::Shift]);
        let def = EightLevelKey::lv2(Key::J, "j", "J").with(*level, action);
        for other in LEVELS.iter() {
            if other == level {
                assert_eq!(def.resolve(*other), action);
            } else {
                assert_eq!(def.resolve(*other), Redirect::new(Key::J, default_mods(*other)));
            }
        }
    }
}

#[test]
fn with_fills_the_slot_of_its_level_only() {
    let action = Redirect::new(Key::Home, vec![]);
    let def = EightLevelKey::lv2(Key::A, "a", "A").with(Level::Five, action);
    assert_eq!(def.key, Key::A);
    assert_eq!(def.lv1, "a");
    assert_eq!(def.lv2, "A");
    assert_eq!(def.lv3, None);
    assert_eq!(def.lv4, None);
    assert_eq!(def.lv5, Some(action));
    assert_eq!(def.lv6, None);
    assert_eq!(def.lv7, None);
    assert_eq!(def.lv8, None);
}

#[test]
fn with_replaces_what_was_given_before() {
    let first = Redirect::new(Key::Home, vec![]);
    let second = Redirect::new(Key::End, vec![Mod::Alt]);
    let def =
        EightLevelKey::lv2(Key::A, "a", "A").with(Level::Three, first).with(Level::Three, second);
    assert_eq!(def.lv3, Some(second));
    assert_eq!(def.lv3(), second);
}

#[test]
fn struct_update_gives_the_same_key_as_with() {
    let action = Redirect::new(Key::Esc, vec![]);
    let updated = EightLevelKey { lv3: Some(action), ..EightLevelKey::lv2(Key::G, "g", "G") };
    let built = EightLevelKey::lv2(Key::G, "g", "G").with(Level::Three, action);
    assert_eq!(updated.render(), built.render());
    assert_eq!(updated.lv3, built.lv3);
}

#[test]
fn lv_takes_the_action_where_there_is_one() {
    let def = EightLevelKey::lv2(Key::K, "k", "K");
    let action = Redirect::new(Key::Up, vec![Mod::Shift]);
    assert_eq!(def.lv(&Some(action), || vec![Mod::Alt]), action);
}

#[test]
fn lv_falls_back_to_the_key_under_the_listed_modifiers() {
    let def = EightLevelKey::lv2(Key::K, "k", "K");
    assert_eq!(def.lv(&None, || vec![Mod::Alt]), Redirect::new(Key::K, vec![Mod::Alt]));
    assert_eq!(def.lv(&None, || vec![]), Redirect::new(Key::K, vec![]));
    assert_eq!(
        def.lv(&None, || vec![Mod::Shift, Mod::Control]),
        Redirect::new(Key::K, vec![Mod::Control, Mod::Shift])
    );
}

#[test]
fn the_action_list_has_eight_entries() {
    let def = EightLevelKey::lv2(Key::Space, "space", "space");
    let actions = def.actions();
    assert_eq!(actions, vec![
        "NoAction()",
        "NoAction()",
        "Redirect(key=<SPCE>, clearmods=All, mods=Control)",
        "Redirect(key=<SPCE>, clearmods=All, mods=Control+Shift)",
        "Redirect(key=<SPCE>, clearmods=All, mods=Alt)",
        "Redirect(key=<SPCE>, clearmods=All, mods=Shift+Alt)",
        "Redirect(key=<SPCE>, clearmods=All, mods=Control+Alt)",
        "Redirect(key=<SPCE>, clearmods=All, mods=Control+Shift+Alt)",
    ]);
}

#[test]
fn g_with_level_three_redirected_to_escape() {
    let def =
        EightLevelKey::lv2(Key::G, "g", "G").with(Level::Three, Redirect::new(Key::Esc, vec![]));
    assert_eq!(def.lv3().render(), "Redirect(key=<ESC>, clearmods=All)");
    assert_eq!(def.lv4().render(), "Redirect(key=<AC05>, clearmods=All, mods=Control+Shift)");
    assert_eq!(def.lv5().render(), "Redirect(key=<AC05>, clearmods=All, mods=Alt)");
    assert_eq!(def.lv6().render(), "Redirect(key=<AC05>, clearmods=All, mods=Shift+Alt)");
    assert_eq!(def.lv7().render(), "Redirect(key=<AC05>, clearmods=All, mods=Control+Alt)");
    assert_eq!(def.lv8().render(), "Redirect(key=<AC05>, clearmods=All, mods=Control+Shift+Alt)");
    assert_eq!(def.lv4(), Redirect::new(Key::G, vec![Mod::Control, Mod::Shift]));
    assert_eq!(def.lv5(), Redirect::new(Key::G, vec![Mod::Alt]));
    assert_eq!(def.lv6(), Redirect::new(Key::G, vec![Mod::Alt, Mod::Shift]));
    assert_eq!(def.lv7(), Redirect::new(Key::G, vec![Mod::Control, Mod::Alt]));
    assert_eq!(def.lv8(), Redirect::new(Key::G, vec![Mod::Control, Mod::Alt, Mod::Shift]));
    assert_eq!(
        def.render(),
        "key <AC05> {\n\
         \x20 type=\"EIGHT_LEVEL\",\n\
         \x20 symbols=[g, G],\n\
         \x20 actions=[\n\
         \x20   NoAction(),\n\
         \x20   NoAction(),\n\
         \x20   Redirect(key=<ESC>, clearmods=All),\n\
         \x20   Redirect(key=<AC05>, clearmods=All, mods=Control+Shift),\n\
         \x20   Redirect(key=<AC05>, clearmods=All, mods=Alt),\n\
         \x20   Redirect(key=<AC05>, clearmods=All, mods=Shift+Alt),\n\
         \x20   Redirect(key=<AC05>, clearmods=All, mods=Control+Alt),\n\
         \x20   Redirect(key=<AC05>, clearmods=All, mods=Control+Shift+Alt)\n\
         \x20 ]\n\
         };"
    );
}

#[test]
fn up_with_levels_five_and_six_redirected_to_page_up() {
    let def = EightLevelKey::lv2(Key::Up, "Up", "Up")
        .with(Level::Five, Redirect::new(Key::PageUp, vec![]))
        .with(Level::Six, Redirect::new(Key::PageUp, vec![Mod::Shift]));
    assert_eq!(def.lv3().render(), "Redirect(key=<UP>, clearmods=All, mods=Control)");
    assert_eq!(def.lv4().render(), "Redirect(key=<UP>, clearmods=All, mods=Control+Shift)");
    assert_eq!(def.lv5().render(), "Redirect(key=<PGUP>, clearmods=All)");
    assert_eq!(def.lv6().render(), "Redirect(key=<PGUP>, clearmods=All, mods=Shift)");
    assert_eq!(def.lv7().render(), "Redirect(key=<UP>, clearmods=All, mods=Control+Alt)");
    assert_eq!(def.lv8().render(), "Redirect(key=<UP>, clearmods=All, mods=Control+Shift+Alt)");
    assert_eq!(
        def.block_lines(),
        vec![
            "key <UP> {",
            "  type=\"EIGHT_LEVEL\",",
            "  symbols=[Up, Up],",
            "  actions=[",
            "    NoAction(),",
            "    NoAction(),",
            "    Redirect(key=<UP>, clearmods=All, mods=Control),",
            "    Redirect(key=<UP>, clearmods=All, mods=Control+Shift),",
            "    Redirect(key=<PGUP>, clearmods=All),",
            "    Redirect(key=<PGUP>, clearmods=All, mods=Shift),",
            "    Redirect(key=<UP>, clearmods=All, mods=Control+Alt),",
            "    Redirect(key=<UP>, clearmods=All, mods=Control+Shift+Alt)",
            "  ]",
            "};",
        ]
    );
    assert_eq!(def.render(), def.block_lines().join("\n"));
}

#[test]
fn symbol_names_pass_through_verbatim() {
    let def = EightLevelKey::lv2(Key::Minus, "minus sign", "under_score [x]");
    assert_eq!(def.block_lines()[2], "  symbols=[minus sign, under_score [x]],");
    let empty = EightLevelKey::lv2(Key::Minus, "", "");
    assert_eq!(empty.block_lines()[2], "  symbols=[, ],");
}
