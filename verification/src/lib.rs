//! Inspection and journalled undo of a mandatory-access-control policy surface.

pub mod advisor;
pub mod avc;
pub mod booleans;
mod clock;
pub mod config_export;
pub mod controller;
pub mod diff;
pub mod file_contexts;
pub mod input;
pub mod logging;
pub mod model;
pub mod modules;
pub mod operations;
pub mod pattern;
pub mod ports;
pub mod rollback;
pub mod safe_config;
pub mod selinux_mode;
pub mod state;
pub mod stats;
pub mod text;
pub mod tools;
