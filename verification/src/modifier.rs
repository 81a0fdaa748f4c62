//! Modifiers, sets of modifiers, and the one order in which a set is written.

use crate::text::{free_of, join, joined, lemma_free_of_joined};
use vstd::prelude::*;
use vstd::string::*;

verus! {

/// A keyboard state flag that selects a level while it is held.
#[derive(Clone, Copy, Debug, PartialEq, Eq, Structural)]
pub enum Mod {
    Control,
    Shift,
    Alt,
}

impl Mod {
    /// The name under which the modifier is written.
    pub open spec fn name(self) -> Seq<char> {
        match self {
            Mod::Control => "Control"@,
            Mod::Shift => "Shift"@,
            Mod::Alt => "Alt"@,
        }
    }

    /// The place of the modifier in the canonical order Control, Shift, Alt.
    pub open spec fn rank(self) -> int {
        match self {
            Mod::Control => 0,
            Mod::Shift => 1,
            Mod::Alt => 2,
        }
    }

    /// A character that is no ASCII letter is nowhere in a modifier's name.
    pub proof fn lemma_name_free_of(self, c: char)
        requires
            !is_letter(c),
        ensures
            free_of(self.name(), c),
    {
        reveal_strlit("Control");
        reveal_strlit("Shift");
        reveal_strlit("Alt");
    }

    /// The modifier's name.
    pub fn render(&self) -> (s: String)
        ensures
            s@ == self.name(),
    {
        match self {
            Mod::Control => String::from_str("Control"),
            Mod::Shift => String::from_str("Shift"),
            Mod::Alt => String::from_str("Alt"),
        }
    }
}

/// Whether `c` is an ASCII letter.
pub open spec fn is_letter(c: char) -> bool {
    ('A' <= c && c <= 'Z') || ('a' <= c && c <= 'z')
}

/// The members of a set of modifiers in canonical order, each once.
pub open spec fn members(mods: Set<Mod>) -> Seq<Mod> {
    let control = if mods.contains(Mod::Control) {
        seq![Mod::Control]
    } else {
        Seq::<Mod>::empty()
    };
    let shift = if mods.contains(Mod::Shift) {
        seq![Mod::Shift]
    } else {
        Seq::<Mod>::empty()
    };
    let alt = if mods.contains(Mod::Alt) {
        seq![Mod::Alt]
    } else {
        Seq::<Mod>::empty()
    };
    control + shift + alt
}

/// How a set of modifiers is written: the names of its members in canonical
/// order with `+` between them, and nothing for the empty set.
pub open spec fn combination(mods: Set<Mod>) -> Seq<char> {
    joined(members(mods).map_values(|m: Mod| m.name()), "+"@)
}

/// The members of a set come out in canonical order and without repetition,
/// and they are the modifiers of the set, all of them and no others.
pub proof fn law_canonical_members(mods: Set<Mod>)
    ensures
        forall|m: Mod| members(mods).contains(m) <==> mods.contains(m),
        forall|i: int, j: int|
            0 <= i < j < members(mods).len() ==> members(mods)[i].rank() < members(mods)[j].rank(),
{
    let ms = members(mods);
    assert forall|m: Mod| ms.contains(m) <==> mods.contains(m) by {
        if mods.contains(m) {
            let at = if m == Mod::Control {
                0int
            } else if m == Mod::Shift {
                if mods.contains(Mod::Control) {
                    1int
                } else {
                    0int
                }
            } else {
                ms.len() - 1
            };
            assert(ms[at] == m);
        }
    }
}

/// A character that is no ASCII letter and not `+` is nowhere in a written
/// set of modifiers.
pub proof fn lemma_combination_free_of(mods: Set<Mod>, c: char)
    requires
        !is_letter(c),
        c != '+',
    ensures
        free_of(combination(mods), c),
{
    reveal_strlit("+");
    let names = members(mods).map_values(|m: Mod| m.name());
    assert forall|i: int| 0 <= i < names.len() implies free_of(#[trigger] names[i], c) by {
        members(mods)[i].lemma_name_free_of(c);
    }
    lemma_free_of_joined(names, "+"@, c);
}

/// A set of modifiers.
#[derive(Clone, Copy, Debug, PartialEq, Eq, Structural)]
pub struct ModSet {
    pub control: bool,
    pub shift: bool,
    pub alt: bool,
}

impl View for ModSet {
    type V = Set<Mod>;

    open spec fn view(&self) -> Set<Mod> {
        Set::new(|m: Mod| self.holds(m))
    }
}

impl ModSet {
    /// Whether `m` is a member.
    pub open spec fn holds(self, m: Mod) -> bool {
        match m {
            Mod::Control => self.control,
            Mod::Shift => self.shift,
            Mod::Alt => self.alt,
        }
    }

    /// The set without a member.
    pub open spec fn none() -> ModSet {
        ModSet { control: false, shift: false, alt: false }
    }

    /// The value that stands for the set `mods`.
    pub open spec fn of_set(mods: Set<Mod>) -> ModSet {
        ModSet {
            control: mods.contains(Mod::Control),
            shift: mods.contains(Mod::Shift),
            alt: mods.contains(Mod::Alt),
        }
    }

    /// The set of the modifiers that occur in `mods`, in whatever order and
    /// however often.
    pub open spec fn of(mods: Seq<Mod>) -> ModSet {
        ModSet::of_set(mods.to_set())
    }

    /// The set with `m` added.
    pub open spec fn plus(self, m: Mod) -> ModSet {
        match m {
            Mod::Control => ModSet { control: true, ..self },
            Mod::Shift => ModSet { shift: true, ..self },
            Mod::Alt => ModSet { alt: true, ..self },
        }
    }

    /// The value that stands for a set has the members of the set.
    pub proof fn lemma_of_set_view(mods: Set<Mod>)
        ensures
            ModSet::of_set(mods)@ == mods,
    {
        assert forall|m: Mod| ModSet::of_set(mods)@.contains(m) <==> mods.contains(m) by {
            match m {
                Mod::Control => {},
                Mod::Shift => {},
                Mod::Alt => {},
            }
        }
        assert(ModSet::of_set(mods)@ =~= mods);
    }

    /// The view of `of(mods)` is the set of the elements of `mods`.
    pub proof fn lemma_of_view(mods: Seq<Mod>)
        ensures
            ModSet::of(mods)@ == mods.to_set(),
    {
        ModSet::lemma_of_set_view(mods.to_set());
    }

    proof fn lemma_of_push(mods: Seq<Mod>, m: Mod)
        ensures
            ModSet::of(mods.push(m)) == ModSet::of(mods).plus(m),
    {
        let more = mods.push(m);
        assert(more[mods.len() as int] == m);
        assert forall|x: Mod| more.contains(x) <==> (mods.contains(x) || x == m) by {
            if mods.contains(x) {
                let i = choose|i: int| 0 <= i < mods.len() && mods[i] == x;
                assert(more[i] == x);
            }
            if more.contains(x) {
                let i = choose|i: int| 0 <= i < more.len() && more[i] == x;
                if i < mods.len() {
                    assert(mods[i] == x);
                }
            }
        }
    }

    /// What `of` is on a list of up to three modifiers, member by member.
    pub broadcast proof fn lemma_of_listed(listed: Seq<Mod>)
        ensures
            #![trigger ModSet::of(listed)]
            listed.len() == 0 ==> ModSet::of(listed) == ModSet::none(),
            listed.len() == 1 ==> ModSet::of(listed) == ModSet::none().plus(listed[0]),
            listed.len() == 2 ==> ModSet::of(listed) == ModSet::none().plus(listed[0]).plus(
                listed[1],
            ),
            listed.len() == 3 ==> ModSet::of(listed) == ModSet::none().plus(listed[0]).plus(
                listed[1],
            ).plus(listed[2]),
    {
        let e = Seq::<Mod>::empty();
        assert(ModSet::of(e) == ModSet::none());
        if listed.len() == 0 {
            assert(listed =~= e);
        } else if listed.len() == 1 {
            ModSet::lemma_of_push(e, listed[0]);
            assert(listed =~= e.push(listed[0]));
        } else if listed.len() == 2 {
            ModSet::lemma_of_push(e, listed[0]);
            ModSet::lemma_of_push(e.push(listed[0]), listed[1]);
            assert(listed =~= e.push(listed[0]).push(listed[1]));
        } else if listed.len() == 3 {
            ModSet::lemma_of_push(e, listed[0]);
            ModSet::lemma_of_push(e.push(listed[0]), listed[1]);
            ModSet::lemma_of_push(e.push(listed[0]).push(listed[1]), listed[2]);
            assert(listed =~= e.push(listed[0]).push(listed[1]).push(listed[2]));
        }
    }

    /// The empty set.
    pub fn empty() -> (r: ModSet)
        ensures
            r == ModSet::none(),
            r@ == Set::<Mod>::empty(),
    {
        let r = ModSet { control: false, shift: false, alt: false };
        assert(r@ =~= Set::<Mod>::empty());
        r
    }

    /// The set with `m` added.
    pub fn with(self, m: Mod) -> (r: ModSet)
        ensures
            r == self.plus(m),
            r@ == self@.insert(m),
    {
        let r = match m {
            Mod::Control => ModSet { control: true, shift: self.shift, alt: self.alt },
            Mod::Shift => ModSet { control: self.control, shift: true, alt: self.alt },
            Mod::Alt => ModSet { control: self.control, shift: self.shift, alt: true },
        };
        assert(r@ =~= self@.insert(m));
        r
    }

    /// Whether `m` is a member.
    pub fn contains(&self, m: Mod) -> (b: bool)
        ensures
            b == self@.contains(m),
    {
        match m {
            Mod::Control => self.control,
            Mod::Shift => self.shift,
            Mod::Alt => self.alt,
        }
    }

    /// Whether the set has no member.
    pub fn is_empty(&self) -> (b: bool)
        ensures
            b == (self@ == Set::<Mod>::empty()),
            b == (members(self@).len() == 0),
    {
        let b = !self.control && !self.shift && !self.alt;
        proof {
            if b {
                assert(self@ =~= Set::<Mod>::empty());
            } else {
                assert(self@.contains(Mod::Control) || self@.contains(Mod::Shift)
                    || self@.contains(Mod::Alt));
            }
        }
        b
    }

    /// Collects the modifiers of a list; order and repetition do not matter.
    pub fn from_mods(mods: &Vec<Mod>) -> (r: ModSet)
        ensures
            r == ModSet::of(mods@),
            r@ == mods@.to_set(),
    {
        let mut acc = ModSet::empty();
        let mut i: usize = 0;
        while i < mods.len()
            invariant
                i <= mods.len(),
                acc == ModSet::of(mods@.take(i as int)),
            decreases mods.len() - i,
        {
            proof {
                ModSet::lemma_of_push(mods@.take(i as int), mods@[i as int]);
                assert(mods@.take(i + 1) =~= mods@.take(i as int).push(mods@[i as int]));
            }
            acc = acc.with(mods[i]);
            i += 1;
        }
        proof {
            assert(mods@.take(i as int) =~= mods@);
            ModSet::lemma_of_view(mods@);
        }
        acc
    }

    /// The members in canonical order.
    pub fn to_vec(&self) -> (v: Vec<Mod>)
        ensures
            v@ == members(self@),
    {
        let mut v: Vec<Mod> = Vec::new();
        if self.control {
            v.push(Mod::Control);
        }
        if self.shift {
            v.push(Mod::Shift);
        }
        if self.alt {
            v.push(Mod::Alt);
        }
        assert(v@ =~= members(self@));
        v
    }

    /// Writes the set: the names of its members in canonical order, joined by `+`.
    pub fn render(&self) -> (s: String)
        ensures
            s@ == combination(self@),
    {
        let ms = self.to_vec();
        let mut names: Vec<String> = Vec::new();
        let mut i: usize = 0;
        while i < ms.len()
            invariant
                i <= ms.len(),
                names@.len() == i,
                forall|j: int| 0 <= j < i ==> (#[trigger] names@[j])@ == ms@[j].name(),
            decreases ms.len() - i,
        {
            names.push(ms[i].render());
            i += 1;
        }
        assert(names.deep_view() =~= ms@.map_values(|m: Mod| m.name()));
        join(&names, "+")
    }
}

} // verus!
