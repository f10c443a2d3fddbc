//! Game workload provisioning and runtime orchestration.
//!
//! The library turns a game's metadata and host capabilities into a
//! declarative container execution plan, and carries that plan through a
//! multi-backend container-runtime lifecycle: build, launch, stop, remove,
//! and age-based cleanup. All decision logic is verified; the embedding
//! process performs command execution and file input/output and reports the
//! outcomes back as plain values.

pub mod strutil;
pub mod workload;
pub mod graphics;
pub mod protondb;
pub mod errors;
pub mod policy;
pub mod backend;
pub mod registry;
pub mod store;
pub mod host;
pub mod manager;
pub mod winetricks;
pub mod game;
pub mod config;
pub mod wine;
pub mod launcher;
pub mod prefix;
pub mod display;
pub mod performance;
pub mod vrr_monitor;
pub mod game_launcher;
pub mod profiles;
pub mod utils;
