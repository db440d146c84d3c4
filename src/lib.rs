//! A smarter front end for git: fuzzy subcommand resolution, dispatch
//! planning, configuration validation and hook script generation.
pub mod colors;
pub mod distance;
pub mod resolve;
pub mod dispatch;
pub mod json;
pub mod config;
pub mod hooks;
pub mod commands;
