//! The menus, input handling and bookkeeping of a console front end for a
//! Flash player: which game is highlighted, which key a button is bound to,
//! and how long the game loop spends in each phase.
pub mod text;
pub mod list;
pub mod keys;
pub mod input;
pub mod config;
pub mod config_menu;
pub mod menu;
pub mod diagnostics;
pub mod paths;
pub mod font;
pub mod log_backend;
pub mod platform;
