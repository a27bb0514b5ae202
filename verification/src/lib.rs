//! Library of a terminal client for the Music Player Daemon: the vim-style
//! key handling, the views' state and the rules by which they change.
pub mod keys;
pub mod song;
pub mod text;
pub mod vim;
pub mod ui;
pub mod config;
