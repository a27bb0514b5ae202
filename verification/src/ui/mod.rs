//! The views of the player and the state that ties them together.
pub mod autocomplete;
pub mod command;
pub mod statusbar;
pub mod library;
pub mod playlist;
pub mod browse;
pub mod app;
pub mod display;
