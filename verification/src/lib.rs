//! Verified core of a retro desktop shell: the window-manager reducer, the
//! shell command engine, app contracts, storage decisions and app helpers.

pub mod calculator;
pub mod display_properties;
pub mod explorer;
pub mod explorer_panel;
pub mod icons;
pub mod json;
pub mod app_contract;
pub mod app_commands;
pub mod app_registry;
pub mod apps;
pub mod shell_commands;
pub mod shell_contract;
pub mod settings;
pub mod shell_builtins;
pub mod shell_engine;
pub mod storage;
pub mod taskbar;
pub mod ui_showcase;
pub mod ui_tokens;
pub mod wallpaper_host;
pub mod window_chrome;
pub mod terminal;
pub mod terminal_console;
pub mod strings;
pub mod model;
pub mod notepad;
pub mod paths;
pub mod persistence;
pub mod reducer;
pub mod reducer_laws;
pub mod runtime;
