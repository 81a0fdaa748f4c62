//! The redirect action: emit a key with all held modifiers cleared, then hold
//! exactly a given set of modifiers.

use crate::key::Key;
use crate::modifier::{combination, lemma_combination_free_of, Mod, ModSet};
use crate::text::{
    free_of, join, joined, lemma_free_of_concat, lemma_free_of_joined, occurs_at,
};
use vstd::prelude::*;
use vstd::string::*;

verus! {

/// "Clear every modifier, emit `key`, then hold exactly `mods`."
///
/// The action replaces the modifier state; it never merges with what is held.
/// With no modifier in `mods` it is a bare emit of `key`.
#[derive(Clone, Copy, Debug, PartialEq, Eq, Structural)]
pub struct Redirect {
    pub key: Key,
    pub mods: ModSet,
}

/// The directive that clears every held modifier.
pub open spec fn clear_directive() -> Seq<char> {
    "clearmods=All"@
}

impl Redirect {
    /// The action on `key` that holds the modifiers listed in `mods`.
    pub open spec fn of(key: Key, mods: Seq<Mod>) -> Redirect {
        Redirect { key, mods: ModSet::of(mods) }
    }

    /// The directive that names the emitted key.
    pub open spec fn key_directive(self) -> Seq<char> {
        "key="@ + self.key.rendered()
    }

    /// The directive that holds the modifiers of the action.
    pub open spec fn hold_directive(self) -> Seq<char> {
        "mods="@ + combination(self.mods@)
    }

    /// The directives of the action in the order in which they are written:
    /// the key, the clearing of all modifiers, and, only where the action
    /// holds a modifier, the hold.
    pub open spec fn directives(self) -> Seq<Seq<char>> {
        if self.mods@ == Set::<Mod>::empty() {
            seq![self.key_directive(), clear_directive()]
        } else {
            seq![self.key_directive(), clear_directive(), self.hold_directive()]
        }
    }

    /// Where the clearing of all modifiers, with the separator before it,
    /// begins in the text of the action.
    pub open spec fn clear_at(self) -> int {
        ("Redirect("@ + self.key_directive()).len() as int
    }

    /// Where the clearing of all modifiers ends in the text of the action.
    pub open spec fn hold_at(self) -> int {
        self.clear_at() + (", "@ + clear_directive()).len()
    }

    /// How the action is written in a keymap.
    pub open spec fn rendered(self) -> Seq<char> {
        "Redirect("@ + joined(self.directives(), ", "@) + ")"@
    }

    /// The action on `key` that holds the modifiers listed in `mods`; the order
    /// of the list and repetitions in it do not matter.
    pub fn new(key: Key, mods: Vec<Mod>) -> (r: Redirect)
        ensures
            r == Redirect::of(key, mods@),
            r.key == key,
            r.mods@ == mods@.to_set(),
    {
        Redirect { key, mods: ModSet::from_mods(&mods) }
    }

    /// Writes the action.
    pub fn render(&self) -> (s: String)
        ensures
            s@ == self.rendered(),
    {
        let mut parts: Vec<String> = Vec::new();
        parts.push(String::from_str("key=").concat(self.key.render().as_str()));
        parts.push(String::from_str("clearmods=All"));
        if !self.mods.is_empty() {
            parts.push(String::from_str("mods=").concat(self.mods.render().as_str()));
        }
        assert(parts.deep_view() =~= self.directives());
        String::from_str("Redirect(").concat(join(&parts, ", ").as_str()).concat(")")
    }
}

/// Whether a directive is one that holds modifiers.
pub open spec fn is_hold_directive(directive: Seq<char>) -> bool {
    "mods="@.is_prefix_of(directive)
}

/// The supplied order of the modifiers does not show in an action: made
/// from two lists with the same members, on the same key, the two actions are
/// the same, and so is their text.
pub proof fn law_supplied_order_is_irrelevant(
    key: Key,
    a: Vec<Mod>,
    b: Vec<Mod>,
    x: Redirect,
    y: Redirect,
)
    requires
        a@.to_set() == b@.to_set(),
        call_ensures(Redirect::new, (key, a), x),
        call_ensures(Redirect::new, (key, b), y),
    ensures
        x == y,
        x.rendered() == y.rendered(),
        Redirect::of(key, a@) == Redirect::of(key, b@),
{
}

/// Every action clears all modifiers before it holds any. The directive that
/// clears comes second, straight after the key. An action that holds
/// modifiers has one more directive, the hold, which comes third. An action
/// that holds none has no hold directive.
pub proof fn law_clear_then_hold(action: Redirect)
    ensures
        action.directives()[0] == action.key_directive(),
        action.directives()[1] == clear_directive(),
        !is_hold_directive(action.directives()[0]),
        !is_hold_directive(action.directives()[1]),
        action.mods@ != Set::<Mod>::empty() ==> {
            &&& action.directives().len() == 3
            &&& action.directives()[2] == action.hold_directive()
            &&& is_hold_directive(action.directives()[2])
        },
        action.mods@ == Set::<Mod>::empty() ==> action.directives().len() == 2,
{
    reveal_strlit("mods=");
    reveal_strlit("key=");
    reveal_strlit("clearmods=All");
    let hold = "mods="@;
    let key = action.key_directive();
    let clear = clear_directive();
    if hold.is_prefix_of(key) {
        assert(key[0] == hold[0]);
    }
    if hold.is_prefix_of(clear) {
        assert(clear[0] == hold[0]);
    }
    assert(hold.is_prefix_of(action.hold_directive())) by {
        assert(action.hold_directive().subrange(0, hold.len() as int) =~= hold);
    }
}

/// In the text of an action the clearing of all modifiers stands right behind
/// the key. Where the action holds modifiers, the hold stands right behind
/// the clearing and ends the list; where it holds none, the list ends with
/// the clearing, and the text has no hold at any place.
pub proof fn law_clear_then_hold_in_text(action: Redirect)
    ensures
        occurs_at(action.rendered(), "Redirect("@ + action.key_directive(), 0),
        occurs_at(action.rendered(), ", "@ + clear_directive(), action.clear_at()),
        action.clear_at() < action.hold_at(),
        action.mods@ != Set::<Mod>::empty() ==> {
            &&& occurs_at(action.rendered(), ", "@ + action.hold_directive(), action.hold_at())
            &&& action.rendered().len() == action.hold_at() + (", "@ + action.hold_directive()
                + ")"@).len()
        },
        action.mods@ == Set::<Mod>::empty() ==> {
            &&& action.rendered().len() == action.hold_at() + ")"@.len()
            &&& forall|at: int| !occurs_at(action.rendered(), ", mods="@, at)
        },
        occurs_at(action.rendered(), ")"@, action.rendered().len() - 1),
{
    reveal_strlit(", ");
    reveal_strlit(")");
    let text = action.rendered();
    let open = "Redirect("@ + action.key_directive();
    let clear = ", "@ + clear_directive();
    let hold = ", "@ + action.hold_directive();
    let clear_at = action.clear_at();
    let hold_at = action.hold_at();
    let parts = action.directives();
    assert(joined(parts.take(1), ", "@) == action.key_directive()) by {
        assert(parts.take(1)[0] == action.key_directive());
    }
    assert(joined(parts.take(2), ", "@) == action.key_directive() + ", "@ + clear_directive()) by {
        assert(parts.take(2).drop_last() =~= parts.take(1));
    }
    if action.mods@ == Set::<Mod>::empty() {
        assert(parts.take(2) =~= parts);
        assert(text =~= open + clear + ")"@);
        assert(text.subrange(0, open.len() as int) =~= open);
        assert(text.subrange(clear_at, clear_at + clear.len()) =~= clear);
        assert(text.subrange(text.len() - 1, text.len() as int) =~= ")"@);
        assert forall|at: int| !occurs_at(text, ", mods="@, at) by {
            if occurs_at(text, ", mods="@, at) {
                reveal_strlit(", mods=");
                reveal_strlit("Redirect(");
                reveal_strlit("key=");
                reveal_strlit(", ");
                reveal_strlit("clearmods=All");
                reveal_strlit(")");
                let found = text.subrange(at, at + 7);
                assert(found[0] == ',' && found[2] == 'm');
                assert(text[at] == ',' && text[at + 2] == 'm');
                action.key.lemma_rendered_free_of(',');
                lemma_free_of_concat("key="@, action.key.rendered(), ',');
                lemma_free_of_concat("Redirect("@, action.key_directive(), ',');
                assert(free_of(open, ','));
                if at < open.len() {
                    assert(text[at] == open[at]);
                } else {
                    let tail = clear + ")"@;
                    assert(text[at] == tail[at - open.len()]);
                    assert(text[at + 2] == tail[at + 2 - open.len()]);
                }
            }
        }
    } else {
        assert(parts.drop_last() =~= parts.take(2));
        assert(text =~= open + clear + hold + ")"@);
        assert(text.subrange(0, open.len() as int) =~= open);
        assert(text.subrange(clear_at, clear_at + clear.len()) =~= clear);
        assert(text.subrange(hold_at, hold_at + hold.len()) =~= hold);
        assert(text.subrange(text.len() - 1, text.len() as int) =~= ")"@);
    }
}

/// A written action holds no line feed and no carriage return.
pub proof fn lemma_rendered_in_one_line(action: Redirect, c: char)
    requires
        c == '\n' || c == '\r',
    ensures
        free_of(action.rendered(), c),
{
    reveal_strlit("Redirect(");
    reveal_strlit("key=");
    reveal_strlit(", ");
    reveal_strlit("clearmods=All");
    reveal_strlit("mods=");
    reveal_strlit(")");
    action.key.lemma_rendered_free_of(c);
    lemma_combination_free_of(action.mods@, c);
    lemma_free_of_concat("key="@, action.key.rendered(), c);
    lemma_free_of_concat("mods="@, combination(action.mods@), c);
    let parts = action.directives();
    assert forall|i: int| 0 <= i < parts.len() implies free_of(#[trigger] parts[i], c) by {}
    lemma_free_of_joined(parts, ", "@, c);
    lemma_free_of_concat("Redirect("@, joined(parts, ", "@), c);
    lemma_free_of_concat("Redirect("@ + joined(parts, ", "@), ")"@, c);
}

} // verus!
