//! Tooling between the Defold game editor and Neovim: the compiler of script API
//! descriptions into annotated Lua stubs, and the rules by which projects, releases,
//! terminals and windows are named and chosen.
//!
//! Every function is verified against a contract over the mathematical value of its
//! arguments. What other crates compute is named in those contracts, not modelled.

pub mod bridge;
pub mod editor;
pub mod editor_config;
pub mod error;
pub mod focus;
pub mod game_project;
pub mod github;
pub mod launcher;
pub mod plugin_config;
pub mod project;
pub mod release;
pub mod script_api;
pub mod terminals;
pub mod text;
pub mod utils;
