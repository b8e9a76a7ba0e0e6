//! Depot: local, project-scoped package management for Lua.
use vstd::prelude::*;

pub mod text;
pub mod paths;
pub mod store;
pub mod digest;
pub mod mocks;
pub mod cache;
pub mod cache_clean;
pub mod clock;
pub mod lua_version;
pub mod build;
pub mod config;
pub mod credentials;
pub mod path_setup;
pub mod luarocks_client;
pub mod commands;
pub mod templates;
pub mod registry;
pub mod remove;
pub mod plugins;
pub mod project;
pub mod init_wizard;
pub mod install;
pub mod runner;
pub mod update;
pub mod error;
pub mod version;
pub mod version_order;
pub mod verify;
pub mod workspace_view;
pub mod constraint;
pub mod luarocks_version;
pub mod lua_versions;
pub mod listing;
pub mod lua_analysis;
pub mod outdated;
pub mod github;
pub mod github_api;
pub mod lua_wrappers;
pub mod workspace_run;
