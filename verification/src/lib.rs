//! Eight-level keyboard layouts: a model of what every key does on each of its
//! eight levels, and its rendering as an XKB symbols description.
//!
//! A layout is a list of [`EightLevelKey`]s. Each names a physical [`Key`],
//! the symbols of its levels 1 and 2, and a [`Redirect`] action for any of its
//! levels 3 to 8; a level without one acts as the key itself under the
//! modifiers that select the level. [`get_keys`] is the layout that this
//! library ships, and [`serialize`] writes a layout as a keymap.
//!
//! Every function states what it returns over texts as sequences of
//! characters, and the laws beside them say what holds of every layout: that
//! a set of modifiers is written in one order only, that every action clears
//! before it holds, that every level resolves, and that the keymap keeps the
//! order of the layout between a fixed preamble and fixed closing fragments.

pub mod eight_level;
pub mod key;
pub mod layout;
pub mod modifier;
pub mod redirect;
pub mod serialize;
pub mod text;

pub use eight_level::{EightLevelKey, Level};
pub use key::Key;
pub use layout::get_keys;
pub use modifier::{Mod, ModSet};
pub use redirect::Redirect;
pub use serialize::{serialize, write_section, CLOSING, FRAGMENTS, MARGIN, PREAMBLE};
