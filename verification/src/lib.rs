//! Event classification, storage framing and view-state logic for the
//! watcher-rs system observability tool.

pub mod text;
pub mod net;
pub mod model;
pub mod path;
pub mod scan;
pub mod gen_db;
pub mod rules;
pub mod detection;
pub mod filter;
pub mod pipeline;
pub mod write;
pub mod helper;
pub mod app;
pub mod ui;
pub mod config;
pub mod common;
pub mod tui;
pub mod probe;
