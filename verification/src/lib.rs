use vstd::prelude::*;

pub mod text;
pub mod path;
pub mod file_kind;
pub mod selection;
pub mod menu;
pub mod settings;
pub mod naming;
pub mod hotkey;
pub mod tray;
pub mod updater;
pub mod convert;
pub mod overlay;
pub mod session;

verus! {

} // verus!
