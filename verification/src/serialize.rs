//! The keymap as one text: a symbol group with a block for every key of a
//! layout, followed by the fragments that give modifier keys other roles.

use crate::eight_level::{law_block_lines, EightLevelKey, EightLevelKeyView};
use crate::text::{free_of, lemma_occurs_between, lines, occurs_at, split_lines};
use vstd::prelude::*;
use vstd::string::*;

verus! {

/// What opens the symbol group: its name, the layout that it extends, and the
/// mapping of the level-five modifier.
pub const PREAMBLE: &'static str = r#"// Generated
partial alphanumeric_keys modifier_keys
xkb_symbols "basic" {

  include "us"
  include "level5(modifier_mapping)"
"#;

/// What closes the symbol group.
pub const CLOSING: &'static str = "};\n";

/// Symbol groups that give modifier keys other roles. They are constant text
/// and do not depend on any layout.
pub const FRAGMENTS: &'static str = r#"
partial modifier_keys
xkb_symbols "lalt_as_lv3" {
  key <LALT> {[ISO_Level3_Shift, ISO_Level3_Shift]};
};

partial modifier_keys
xkb_symbols "lwin_as_lv5" {
  key <LWIN> {[ISO_Level5_Shift]};
};

partial modifier_keys
xkb_symbols "lctrl_as_lwin" {
  key <LCTL> {[Super_L]};
  modifier_map Mod4 {<LCTL>};
};

partial modifier_keys
xkb_symbols "ralt_as_rctrl" {
  key <RALT> {[Control_R, Control_R]};
  modifier_map Control {<RALT>};
};

partial modifier_keys
xkb_symbols "prtsc_as_ralt" {
  key <PRSC> {[Alt_R, Meta_R]};
  modifier_map Mod1 {<PRSC>};
};

partial modifier_keys
xkb_symbols "rwin_as_ralt" {
  key <RWIN> {[Alt_R, Meta_R]};
  modifier_map Mod1 {<RWIN>};
};

partial modifier_keys
xkb_symbols "rctrl_as_rwin" {
  key <RCTL> {[Super_R]};
  modifier_map Mod4 {<RCTL>};
};

"#;

/// The margin before every line of a block.
pub const MARGIN: &'static str = "  ";

/// The lines one after another, each behind the margin and closed by a line
/// feed.
pub open spec fn indented(lines: Seq<Seq<char>>) -> Seq<char>
    decreases lines.len(),
{
    if lines.len() == 0 {
        Seq::empty()
    } else {
        indented(lines.drop_last()) + MARGIN@ + lines.last() + "\n"@
    }
}

/// What is written for one key: an empty line, then the lines of its block
/// behind the margin.
pub open spec fn section(def: EightLevelKeyView) -> Seq<char> {
    "\n"@ + indented(split_lines(def.rendered()))
}

/// The sections of the keys of a layout in the order of the layout.
pub open spec fn sections(table: Seq<EightLevelKeyView>) -> Seq<char>
    decreases table.len(),
{
    if table.len() == 0 {
        Seq::empty()
    } else {
        sections(table.drop_last()) + section(table.last())
    }
}

/// The keymap of a layout.
pub open spec fn document(table: Seq<EightLevelKeyView>) -> Seq<char> {
    PREAMBLE@ + sections(table) + CLOSING@ + FRAGMENTS@
}

/// Appends the section of one key to `out`.
pub fn write_section(out: &mut String, def: &EightLevelKey)
    ensures
        final(out)@ == old(out)@ + section(def@),
{
    let block = def.render();
    let block_lines = lines(block.as_str());
    out.append("\n");
    let mut i: usize = 0;
    while i < block_lines.len()
        invariant
            i <= block_lines.len(),
            block_lines.deep_view() == split_lines(def@.rendered()),
            out@ == old(out)@ + "\n"@ + indented(block_lines.deep_view().take(i as int)),
        decreases block_lines.len() - i,
    {
        proof {
            let done = block_lines.deep_view().take(i as int);
            let more = block_lines.deep_view().take(i + 1);
            assert(more.drop_last() =~= done);
            assert(more.last() == block_lines@[i as int]@);
        }
        out.append(MARGIN);
        out.append(block_lines[i]);
        out.append("\n");
        i += 1;
    }
    assert(block_lines.deep_view().take(i as int) =~= block_lines.deep_view());
}

/// Writes the keymap of a layout.
pub fn serialize(table: &Vec<EightLevelKey>) -> (out: String)
    ensures
        out@ == document(table.deep_view()),
{
    let mut out = String::from_str(PREAMBLE);
    let mut i: usize = 0;
    while i < table.len()
        invariant
            i <= table.len(),
            out@ == PREAMBLE@ + sections(table.deep_view().take(i as int)),
        decreases table.len() - i,
    {
        proof {
            let done = table.deep_view().take(i as int);
            let more = table.deep_view().take(i + 1);
            assert(more.drop_last() =~= done);
            assert(more.last() == table@[i as int]@);
        }
        write_section(&mut out, &table[i]);
        i += 1;
    }
    assert(table.deep_view().take(i as int) =~= table.deep_view());
    out.append(CLOSING);
    out.append(FRAGMENTS);
    out
}

/// Where the section of the key at `i` begins in the keymap of a layout.
pub open spec fn section_start(table: Seq<EightLevelKeyView>, i: int) -> int {
    (PREAMBLE@ + sections(table.take(i))).len() as int
}

/// The sections of two layouts, one written after the other.
pub proof fn lemma_sections_concat(a: Seq<EightLevelKeyView>, b: Seq<EightLevelKeyView>)
    ensures
        sections(a + b) == sections(a) + sections(b),
    decreases b.len(),
{
    if b.len() == 0 {
        assert(a + b =~= a);
    } else {
        lemma_sections_concat(a, b.drop_last());
        assert((a + b).drop_last() =~= a + b.drop_last());
        assert((a + b).last() == b.last());
    }
}

/// Serializing is a function of the layout as a value: two runs on layouts
/// that hold the same keys, symbol names and actions give the same text.
pub proof fn law_serialize_is_deterministic(
    a: &Vec<EightLevelKey>,
    b: &Vec<EightLevelKey>,
    x: String,
    y: String,
)
    requires
        a.deep_view() == b.deep_view(),
        call_ensures(serialize, (a,), x),
        call_ensures(serialize, (b,), y),
    ensures
        x@ == y@,
{
}

/// The keymap keeps the order of the layout. It begins with the preamble;
/// the section of the first key follows; the section of every key stands,
/// whole, right behind the section of the key before it; and what closes
/// the symbol group stands right behind the section of the last key.
pub proof fn law_sections_in_table_order(table: Seq<EightLevelKeyView>, i: int)
    requires
        0 <= i < table.len(),
    ensures
        occurs_at(document(table), PREAMBLE@, 0),
        section_start(table, 0) == PREAMBLE@.len(),
        occurs_at(document(table), section(table[i]), section_start(table, i)),
        section_start(table, i + 1) == section_start(table, i) + section(table[i]).len(),
        occurs_at(document(table), CLOSING@, section_start(table, table.len() as int)),
{
    let none = Seq::<char>::empty();
    let doc = document(table);
    let before = table.take(i);
    let after = table.skip(i + 1);
    let empty = Seq::<EightLevelKeyView>::empty();
    assert(table.take(0) =~= empty);
    assert(sections(empty) =~= none);
    assert(table.take(table.len() as int) =~= table);
    assert(table.take(i + 1) =~= before + seq![table[i]]);
    assert(table =~= table.take(i + 1) + after);
    assert(seq![table[i]].drop_last() =~= empty);
    assert(sections(seq![table[i]]) =~= section(table[i]));
    lemma_sections_concat(before, seq![table[i]]);
    lemma_sections_concat(table.take(i + 1), after);
    assert(sections(table.take(i + 1)) == sections(before) + section(table[i]));
    assert(sections(table) == sections(before) + section(table[i]) + sections(after));
    assert(doc =~= PREAMBLE@ + sections(table) + (CLOSING@ + FRAGMENTS@));
    lemma_placed(
        PREAMBLE@,
        sections(before),
        section(table[i]),
        sections(after),
        CLOSING@ + FRAGMENTS@,
    );
    lemma_occurs_between(none, PREAMBLE@, sections(table) + CLOSING@ + FRAGMENTS@);
    lemma_occurs_between(PREAMBLE@ + sections(table), CLOSING@, FRAGMENTS@);
    assert(doc =~= none + PREAMBLE@ + (sections(table) + CLOSING@ + FRAGMENTS@));
}

/// Where the third of five texts stands when they are written one after
/// another.
proof fn lemma_placed(a: Seq<char>, b: Seq<char>, c: Seq<char>, d: Seq<char>, e: Seq<char>)
    ensures
        occurs_at(a + (b + c + d) + e, c, (a + b).len() as int),
{
    lemma_occurs_between(a + b, c, d + e);
    assert(a + (b + c + d) + e =~= (a + b) + c + (d + e));
}

/// Every keymap ends with the same fragments, whatever the layout holds.
pub proof fn law_fragments_end_every_keymap(table: Seq<EightLevelKeyView>)
    ensures
        occurs_at(document(table), FRAGMENTS@, document(table).len() - FRAGMENTS@.len()),
        occurs_at(
            document(table),
            CLOSING@ + FRAGMENTS@,
            section_start(table, table.len() as int),
        ),
{
    let none = Seq::<char>::empty();
    let doc = document(table);
    assert(table.take(table.len() as int) =~= table);
    lemma_occurs_between(PREAMBLE@ + sections(table) + CLOSING@, FRAGMENTS@, none);
    lemma_occurs_between(PREAMBLE@ + sections(table), CLOSING@ + FRAGMENTS@, none);
    assert(doc =~= PREAMBLE@ + sections(table) + CLOSING@ + FRAGMENTS@ + none);
    assert(doc =~= PREAMBLE@ + sections(table) + (CLOSING@ + FRAGMENTS@) + none);
}

/// The first of the lines stands in front, behind the margin, with the other
/// lines behind it.
pub proof fn lemma_indented_front(lines: Seq<Seq<char>>)
    requires
        lines.len() >= 1,
    ensures
        indented(lines) == MARGIN@ + lines[0] + "\n"@ + indented(lines.drop_first()),
    decreases lines.len(),
{
    let tail = lines.drop_first();
    if lines.len() == 1 {
        assert(indented(lines.drop_last()) =~= Seq::<char>::empty());
        assert(indented(tail) =~= Seq::<char>::empty());
        assert(indented(lines) =~= MARGIN@ + lines[0] + "\n"@ + indented(tail));
    } else {
        let front = lines.drop_last();
        lemma_indented_front(front);
        assert(front.drop_first() =~= tail.drop_last());
        assert(indented(lines) =~= MARGIN@ + lines[0] + "\n"@ + indented(tail));
    }
}

/// The section of a key whose symbol names hold no line feed: an empty line,
/// then the fourteen lines of its block behind the margin. It begins with the
/// line that names the key.
pub proof fn law_section_of_block(def: EightLevelKeyView)
    requires
        free_of(def.lv1, '\n'),
        free_of(def.lv2, '\n'),
    ensures
        section(def) == "\n"@ + indented(def.block_lines()),
        occurs_at(
            section(def),
            "\n"@ + MARGIN@ + "key "@ + def.key.rendered() + " {"@ + "\n"@,
            0,
        ),
{
    law_block_lines(def);
    lemma_indented_front(def.block_lines());
    let head = "\n"@ + MARGIN@ + "key "@ + def.key.rendered() + " {"@ + "\n"@;
    assert(section(def).subrange(0, head.len() as int) =~= head);
}

} // verus!
