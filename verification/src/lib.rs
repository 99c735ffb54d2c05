//! A mail client for the terminal, without the terminal: the state of the
//! client, the transition that every key and every report of a background
//! task causes, the rules by which replies, lists and texts are made, and
//! the frames that show the state. Reading keys, talking to servers and
//! drawing are left to the program around this library.

pub mod app;
pub mod compose;
pub mod config;
pub mod config_edit;
pub mod editor;
pub mod laws;
pub mod machine;
pub mod mail;
pub mod number;
pub mod tasks;
pub mod text;
pub mod ui;
