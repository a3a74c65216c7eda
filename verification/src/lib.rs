pub mod keys;
pub mod select_group;
pub mod checkboxgroup;
pub mod radiogroup;
pub mod words;
pub mod game;
pub mod glyphs;
pub mod application;
