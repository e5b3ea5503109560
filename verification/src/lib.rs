//! A terminal interface to a mail account: its state, the decisions behind each
//! key, the order of its work, and what it shows.
pub mod action;
pub mod app;
pub mod draw;
pub mod laws;
pub mod layout;
pub mod mail;
pub mod run;
pub mod screen;
pub mod style;
pub mod text;
