//! Vim-style key handling shared by the views: motions, edits, search and
//! undo history.
pub mod history;
pub mod motion;
pub mod edit;
pub mod search;
