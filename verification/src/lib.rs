//! Text tables of a game's messages (FMG files) and the logic of a menu mod
//! that shows them: categories, message lookups, replacement messages, the
//! overlay's state, the hook's jump encoding and item-name lookups.
pub mod categories;
pub mod fmg;
pub mod gui;
pub mod hook;
pub mod item_names;
pub mod json;
pub mod messages;
pub mod text;
