//! The eight-level key: what one physical key does on each of its levels.
//!
//! Levels 1 and 2 carry a symbol name and no action. Levels 3 to 8 carry a
//! redirect action each: the one given for the level, or else the key itself
//! under the modifiers that select the level.

use crate::key::Key;
use crate::modifier::{Mod, ModSet};
use crate::redirect::{lemma_rendered_in_one_line, Redirect};
use crate::text::{
    free_of, join, joined, law_split_joined, lemma_free_of_concat, split_lines, without_return,
};
use vstd::prelude::*;
use vstd::string::*;

verus! {

/// One of the six levels that carry an action.
#[derive(Clone, Copy, Debug, PartialEq, Eq, Structural)]
pub enum Level {
    Three,
    Four,
    Five,
    Six,
    Seven,
    Eight,
}

impl Level {
    /// The number of the level, from 3 to 8.
    pub open spec fn index(self) -> int {
        match self {
            Level::Three => 3,
            Level::Four => 4,
            Level::Five => 5,
            Level::Six => 6,
            Level::Seven => 7,
            Level::Eight => 8,
        }
    }

    /// The modifiers that a level without an action of its own holds.
    pub open spec fn default_mods(self) -> Set<Mod> {
        match self {
            Level::Three => set![Mod::Control],
            Level::Four => set![Mod::Control, Mod::Shift],
            Level::Five => set![Mod::Alt],
            Level::Six => set![Mod::Alt, Mod::Shift],
            Level::Seven => set![Mod::Control, Mod::Alt],
            Level::Eight => set![Mod::Control, Mod::Alt, Mod::Shift],
        }
    }
}

/// One physical key with its two symbol names and the actions given for its
/// levels 3 to 8.
#[derive(Clone, Copy, Debug)]
pub struct EightLevelKey {
    pub key: Key,
    pub lv1: &'static str,
    pub lv2: &'static str,
    pub lv3: Option<Redirect>,
    pub lv4: Option<Redirect>,
    pub lv5: Option<Redirect>,
    pub lv6: Option<Redirect>,
    pub lv7: Option<Redirect>,
    pub lv8: Option<Redirect>,
}

/// An eight-level key as a value: the symbol names are the texts they hold.
pub struct EightLevelKeyView {
    pub key: Key,
    pub lv1: Seq<char>,
    pub lv2: Seq<char>,
    pub lv3: Option<Redirect>,
    pub lv4: Option<Redirect>,
    pub lv5: Option<Redirect>,
    pub lv6: Option<Redirect>,
    pub lv7: Option<Redirect>,
    pub lv8: Option<Redirect>,
}

impl View for EightLevelKey {
    type V = EightLevelKeyView;

    open spec fn view(&self) -> EightLevelKeyView {
        EightLevelKeyView {
            key: self.key,
            lv1: self.lv1@,
            lv2: self.lv2@,
            lv3: self.lv3,
            lv4: self.lv4,
            lv5: self.lv5,
            lv6: self.lv6,
            lv7: self.lv7,
            lv8: self.lv8,
        }
    }
}

impl DeepView for EightLevelKey {
    type V = EightLevelKeyView;

    open spec fn deep_view(&self) -> EightLevelKeyView {
        self.view()
    }
}

/// The placeholder written for a level that carries no action.
pub open spec fn no_action() -> Seq<char> {
    "NoAction()"@
}

impl EightLevelKeyView {
    /// The key with two symbol names and no action given for any level.
    pub open spec fn plain(key: Key, lv1: Seq<char>, lv2: Seq<char>) -> EightLevelKeyView {
        EightLevelKeyView {
            key,
            lv1,
            lv2,
            lv3: None,
            lv4: None,
            lv5: None,
            lv6: None,
            lv7: None,
            lv8: None,
        }
    }

    /// The action given for `level`, if any.
    pub open spec fn slot(self, level: Level) -> Option<Redirect> {
        match level {
            Level::Three => self.lv3,
            Level::Four => self.lv4,
            Level::Five => self.lv5,
            Level::Six => self.lv6,
            Level::Seven => self.lv7,
            Level::Eight => self.lv8,
        }
    }

    /// The same key with `action` given for `level`.
    pub open spec fn with(self, level: Level, action: Redirect) -> EightLevelKeyView {
        match level {
            Level::Three => EightLevelKeyView { lv3: Some(action), ..self },
            Level::Four => EightLevelKeyView { lv4: Some(action), ..self },
            Level::Five => EightLevelKeyView { lv5: Some(action), ..self },
            Level::Six => EightLevelKeyView { lv6: Some(action), ..self },
            Level::Seven => EightLevelKeyView { lv7: Some(action), ..self },
            Level::Eight => EightLevelKeyView { lv8: Some(action), ..self },
        }
    }

    /// What a level without an action of its own does: the key itself, under
    /// the modifiers that select the level and no others.
    pub open spec fn fallback(self, level: Level) -> Redirect {
        Redirect { key: self.key, mods: ModSet::of_set(level.default_mods()) }
    }

    /// The action that `level` carries: the one given for it, or the fallback.
    pub open spec fn resolved(self, level: Level) -> Redirect {
        match self.slot(level) {
            Some(action) => action,
            None => self.fallback(level),
        }
    }

    /// The eight entries of the action list, in the order of the levels.
    pub open spec fn action_texts(self) -> Seq<Seq<char>> {
        seq![
            no_action(),
            no_action(),
            self.resolved(Level::Three).rendered(),
            self.resolved(Level::Four).rendered(),
            self.resolved(Level::Five).rendered(),
            self.resolved(Level::Six).rendered(),
            self.resolved(Level::Seven).rendered(),
            self.resolved(Level::Eight).rendered(),
        ]
    }

    /// The lines of the block that defines the key in a keymap: the key, the
    /// type, the two symbol names, and the action list with one entry to a
    /// line.
    pub open spec fn block_lines(self) -> Seq<Seq<char>> {
        let actions = self.action_texts();
        seq![
            "key "@ + self.key.rendered() + " {"@,
            "  type=\"EIGHT_LEVEL\","@,
            "  symbols=["@ + self.lv1 + ", "@ + self.lv2 + "],"@,
            "  actions=["@,
            "    "@ + actions[0] + ","@,
            "    "@ + actions[1] + ","@,
            "    "@ + actions[2] + ","@,
            "    "@ + actions[3] + ","@,
            "    "@ + actions[4] + ","@,
            "    "@ + actions[5] + ","@,
            "    "@ + actions[6] + ","@,
            "    "@ + actions[7],
            "  ]"@,
            "};"@,
        ]
    }

    /// The block that defines the key in a keymap.
    pub open spec fn rendered(self) -> Seq<char> {
        joined(self.block_lines(), "\n"@)
    }
}

impl EightLevelKey {
    /// The key with its two symbol names and no action given for any level.
    pub fn lv2(key: Key, lv1: &'static str, lv2: &'static str) -> (r: EightLevelKey)
        ensures
            r@ == EightLevelKeyView::plain(key, lv1@, lv2@),
    {
        EightLevelKey {
            key,
            lv1,
            lv2,
            lv3: None,
            lv4: None,
            lv5: None,
            lv6: None,
            lv7: None,
            lv8: None,
        }
    }

    /// The same key with `action` given for `level`, in place of what was
    /// given for that level before.
    pub fn with(self, level: Level, action: Redirect) -> (r: EightLevelKey)
        ensures
            r@ == self@.with(level, action),
    {
        let mut r = self;
        match level {
            Level::Three => r.lv3 = Some(action),
            Level::Four => r.lv4 = Some(action),
            Level::Five => r.lv5 = Some(action),
            Level::Six => r.lv6 = Some(action),
            Level::Seven => r.lv7 = Some(action),
            Level::Eight => r.lv8 = Some(action),
        }
        r
    }

    /// The action in `lv` if there is one, and else the key itself under the
    /// modifiers that `mods` lists.
    pub fn lv(&self, lv: &Option<Redirect>, mods: impl FnOnce() -> Vec<Mod>) -> (r: Redirect)
        requires
            call_requires(mods, ()),
        ensures
            match *lv {
                Some(action) => r == action,
                None => exists|listed: Vec<Mod>|
                    call_ensures(mods, (), listed) && r == Redirect::of(self.key, listed@),
            },
    {
        match lv {
            Some(action) => *action,
            None => Redirect::new(self.key, mods()),
        }
    }

    /// The action of level 3.
    pub fn lv3(&self) -> (r: Redirect)
        ensures
            r == self@.resolved(Level::Three),
    {
        proof {
            lemma_default_lists();
        }
        self.lv(&self.lv3, || -> (listed: Vec<Mod>)
            ensures
                listed@ =~= seq![Mod::Control],
            { vec![Mod::Control] })
    }

    /// The action of level 4.
    pub fn lv4(&self) -> (r: Redirect)
        ensures
            r == self@.resolved(Level::Four),
    {
        proof {
            lemma_default_lists();
        }
        self.lv(&self.lv4, || -> (listed: Vec<Mod>)
            ensures
                listed@ =~= seq![Mod::Control, Mod::Shift],
            { vec![Mod::Control, Mod::Shift] })
    }

    /// The action of level 5.
    pub fn lv5(&self) -> (r: Redirect)
        ensures
            r == self@.resolved(Level::Five),
    {
        proof {
            lemma_default_lists();
        }
        self.lv(&self.lv5, || -> (listed: Vec<Mod>)
            ensures
                listed@ =~= seq![Mod::Alt],
            { vec![Mod::Alt] })
    }

    /// The action of level 6.
    pub fn lv6(&self) -> (r: Redirect)
        ensures
            r == self@.resolved(Level::Six),
    {
        proof {
            lemma_default_lists();
        }
        self.lv(&self.lv6, || -> (listed: Vec<Mod>)
            ensures
                listed@ =~= seq![Mod::Alt, Mod::Shift],
            { vec![Mod::Alt, Mod::Shift] })
    }

    /// The action of level 7.
    pub fn lv7(&self) -> (r: Redirect)
        ensures
            r == self@.resolved(Level::Seven),
    {
        proof {
            lemma_default_lists();
        }
        self.lv(&self.lv7, || -> (listed: Vec<Mod>)
            ensures
                listed@ =~= seq![Mod::Control, Mod::Alt],
            { vec![Mod::Control, Mod::Alt] })
    }

    /// The action of level 8.
    pub fn lv8(&self) -> (r: Redirect)
        ensures
            r == self@.resolved(Level::Eight),
    {
        proof {
            lemma_default_lists();
        }
        self.lv(&self.lv8, || -> (listed: Vec<Mod>)
            ensures
                listed@ =~= seq![Mod::Control, Mod::Alt, Mod::Shift],
            { vec![Mod::Control, Mod::Alt, Mod::Shift] })
    }

    /// The action that `level` carries: the one given for it, or else the
    /// key itself under the modifiers that select the level.
    pub fn resolve(&self, level: Level) -> (r: Redirect)
        ensures
            r == self@.resolved(level),
    {
        match level {
            Level::Three => self.lv3(),
            Level::Four => self.lv4(),
            Level::Five => self.lv5(),
            Level::Six => self.lv6(),
            Level::Seven => self.lv7(),
            Level::Eight => self.lv8(),
        }
    }

    /// The eight entries of the action list: a placeholder for each of the
    /// levels 1 and 2, then the actions of the levels 3 to 8.
    pub fn actions(&self) -> (texts: Vec<String>)
        ensures
            texts.deep_view() == self@.action_texts(),
    {
        let mut texts: Vec<String> = Vec::new();
        texts.push(String::from_str("NoAction()"));
        texts.push(String::from_str("NoAction()"));
        texts.push(self.lv3().render());
        texts.push(self.lv4().render());
        texts.push(self.lv5().render());
        texts.push(self.lv6().render());
        texts.push(self.lv7().render());
        texts.push(self.lv8().render());
        assert(texts.deep_view() =~= self@.action_texts());
        texts
    }

    /// The lines of the block that defines the key.
    pub fn block_lines(&self) -> (lines: Vec<String>)
        ensures
            lines.deep_view() == self@.block_lines(),
    {
        let actions = self.actions();
        let mut lines: Vec<String> = Vec::new();
        lines.push(String::from_str("key ").concat(self.key.render().as_str()).concat(" {"));
        lines.push(String::from_str("  type=\"EIGHT_LEVEL\","));
        lines.push(
            String::from_str("  symbols=[").concat(self.lv1).concat(", ").concat(self.lv2).concat(
                "],",
            ),
        );
        lines.push(String::from_str("  actions=["));
        assert(actions.deep_view().len() == 8);
        let mut i: usize = 0;
        while i < 8
            invariant
                i <= 8,
                actions@.len() == 8,
                actions.deep_view() == self@.action_texts(),
                lines@.len() == 4 + i,
                forall|j: int| 0 <= j < 4 + i ==> (#[trigger] lines@[j])@ == self@.block_lines()[j],
            decreases 8 - i,
        {
            let mut line = String::from_str("    ").concat(actions[i].as_str());
            if i < 7 {
                line.append(",");
            }
            assert(actions@[i as int]@ == actions.deep_view()[i as int]);
            lines.push(line);
            i += 1;
        }
        lines.push(String::from_str("  ]"));
        lines.push(String::from_str("};"));
        assert(lines.deep_view() =~= self@.block_lines());
        lines
    }

    /// Writes the block that defines the key.
    pub fn render(&self) -> (s: String)
        ensures
            s@ == self@.rendered(),
    {
        join(&self.block_lines(), "\n")
    }
}

/// Every level from 3 to 8 carries an action, whatever was given for the key.
/// Where an action was given for the level, it is that one. Where none was,
/// it is the key itself under exactly the modifiers that select the level:
/// Control for level 3, Control and Shift for 4, Alt for 5, Alt and Shift for
/// 6, Control and Alt for 7, and all three for 8. The action list has eight
/// entries, of which the first two are placeholders.
pub proof fn law_default_resolution(def: EightLevelKeyView, level: Level)
    ensures
        def.slot(level) matches Some(action) ==> def.resolved(level) == action,
        def.slot(level) is None ==> {
            &&& def.resolved(level).key == def.key
            &&& def.resolved(level).mods@ == level.default_mods()
        },
        def.action_texts().len() == 8,
        def.action_texts()[0] == no_action(),
        def.action_texts()[1] == no_action(),
        def.action_texts()[level.index() - 1] == def.resolved(level).rendered(),
{
    ModSet::lemma_of_set_view(level.default_mods());
}

/// A key whose symbol names hold no line feed is written as a block of
/// fourteen lines: its text splits into the lines that it was joined from.
pub proof fn law_block_lines(def: EightLevelKeyView)
    requires
        free_of(def.lv1, '\n'),
        free_of(def.lv2, '\n'),
    ensures
        def.block_lines().len() == 14,
        split_lines(def.rendered()) == def.block_lines(),
{
    reveal_strlit("key ");
    reveal_strlit(" {");
    reveal_strlit("  type=\"EIGHT_LEVEL\",");
    reveal_strlit("  symbols=[");
    reveal_strlit(", ");
    reveal_strlit("],");
    reveal_strlit("  actions=[");
    reveal_strlit("    ");
    reveal_strlit(",");
    reveal_strlit("  ]");
    reveal_strlit("};");
    reveal_strlit("NoAction()");
    reveal_strlit(")");
    let lines = def.block_lines();
    let actions = def.action_texts();
    def.key.lemma_rendered_free_of('\n');
    lemma_free_of_concat("key "@, def.key.rendered(), '\n');
    lemma_free_of_concat("key "@ + def.key.rendered(), " {"@, '\n');
    lemma_free_of_concat("  symbols=["@, def.lv1, '\n');
    lemma_free_of_concat("  symbols=["@ + def.lv1, ", "@, '\n');
    lemma_free_of_concat("  symbols=["@ + def.lv1 + ", "@, def.lv2, '\n');
    lemma_free_of_concat("  symbols=["@ + def.lv1 + ", "@ + def.lv2, "],"@, '\n');
    lemma_rendered_in_one_line(def.resolved(Level::Three), '\n');
    lemma_rendered_in_one_line(def.resolved(Level::Four), '\n');
    lemma_rendered_in_one_line(def.resolved(Level::Five), '\n');
    lemma_rendered_in_one_line(def.resolved(Level::Six), '\n');
    lemma_rendered_in_one_line(def.resolved(Level::Seven), '\n');
    lemma_rendered_in_one_line(def.resolved(Level::Eight), '\n');
    assert forall|i: int| 0 <= i < 8 implies free_of(#[trigger] actions[i], '\n') by {}
    assert forall|i: int| 0 <= i < lines.len() implies free_of(#[trigger] lines[i], '\n') by {
        if 4 <= i < 12 {
            let entry = actions[i - 4];
            lemma_free_of_concat("    "@, entry, '\n');
            lemma_free_of_concat("    "@ + entry, ","@, '\n');
        }
    }
    assert forall|i: int| 0 <= i < lines.len() - 1 implies without_return(#[trigger] lines[i])
        == lines[i] by {
        let line = lines[i];
        if i == 11 {
            let last = def.resolved(Level::Eight).rendered();
            assert(last.last() == ')');
            assert(line.last() == last.last());
        } else if 4 <= i < 11 {
            assert(line.last() == ',');
        } else if i == 0 {
            assert(line.last() == '{');
        } else if i == 2 {
            assert(line.last() == ',');
        }
    }
    law_split_joined(lines);
}

/// The lists from which the levels without an action take their modifiers
/// name exactly the modifiers that select each level.
proof fn lemma_default_lists()
    ensures
        ModSet::of(seq![Mod::Control]) == ModSet::of_set(Level::Three.default_mods()),
        ModSet::of(seq![Mod::Control, Mod::Shift]) == ModSet::of_set(Level::Four.default_mods()),
        ModSet::of(seq![Mod::Alt]) == ModSet::of_set(Level::Five.default_mods()),
        ModSet::of(seq![Mod::Alt, Mod::Shift]) == ModSet::of_set(Level::Six.default_mods()),
        ModSet::of(seq![Mod::Control, Mod::Alt]) == ModSet::of_set(Level::Seven.default_mods()),
        ModSet::of(seq![Mod::Control, Mod::Alt, Mod::Shift]) == ModSet::of_set(
            Level::Eight.default_mods(),
        ),
{
    let l3 = seq![Mod::Control];
    assert(l3[0] == Mod::Control);
    let l4 = seq![Mod::Control, Mod::Shift];
    assert(l4[0] == Mod::Control && l4[1] == Mod::Shift);
    let l5 = seq![Mod::Alt];
    assert(l5[0] == Mod::Alt);
    let l6 = seq![Mod::Alt, Mod::Shift];
    assert(l6[0] == Mod::Alt && l6[1] == Mod::Shift);
    let l7 = seq![Mod::Control, Mod::Alt];
    assert(l7[0] == Mod::Control && l7[1] == Mod::Alt);
    let l8 = seq![Mod::Control, Mod::Alt, Mod::Shift];
    assert(l8[0] == Mod::Control && l8[1] == Mod::Alt && l8[2] == Mod::Shift);
}

} // verus!
