//! Navigation state engine of a terminal file browser.
//!
//! The engine keeps a list of tabs, each with its own working directory and
//! back/forward history, and changes them one logical action at a time.
//! Every executable type has a mathematical view, the transition rules are
//! spec functions over those views, and each executable function is proved
//! to compute exactly its rule.
//!
//! The engine performs no I/O. Its caller reads key presses, lists
//! directories, launches programs and stores the settings file, and hands
//! the engine plain values:
//!
//! - `input_controller` turns a key press into an `Action`;
//! - `navigation_state` performs it and says what to ask of the launcher
//!   and whether the state has to be stored again;
//! - `directory_cache` takes what reading a directory gave;
//! - `settings_store` decides what to start from;
//! - `view_projection` gives the picture a renderer draws;
//! - `home` ties these together in one component;
//! - `laws` states what holds whatever happens.

pub mod seq_view;
pub mod paths;
pub mod action;
pub mod dir_entry;
pub mod working_directory;
pub mod tab;
pub mod navigation_state;
pub mod directory_cache;
pub mod settings_store;
pub mod input_controller;
pub mod view_projection;
pub mod home;
pub mod laws;
