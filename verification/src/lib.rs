//! The logic of easyenv, a desktop tool that sets up development environments.

pub mod cancel;
pub mod clock;
pub mod commands;
pub mod download;
pub mod environment;
pub mod environment_laws;
pub mod install;
pub mod install_laws;
pub mod model;
pub mod package;
pub mod path_search;
pub mod places;
pub mod search_path;
pub mod text;
pub mod update;
pub mod version;
pub mod window;
