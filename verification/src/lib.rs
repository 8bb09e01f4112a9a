//! Client-side replica engine for a hosted task-management service.
//!
//! The crate keeps a local mirror of projects, tasks, labels, sections and
//! comments, merges server deltas into it, applies user commands
//! optimistically with rollback, and derives the ordered list of visible
//! task rows. Every function carries a contract checked by Verus.

pub mod text;

pub mod models;
pub mod strmap;
pub mod merge;
pub mod replay;
pub mod order;
pub mod projects;
pub mod sync;
pub mod dates;
pub mod clock;
pub mod state;
pub mod selector;
pub mod app;
pub mod queries;
pub mod replica;
pub mod commands;
pub mod submit;
pub mod json;
pub mod errors;
pub mod reconcile;
pub mod coordinator;
pub mod laws;
pub mod retry;
pub mod push;
pub mod transport;
pub mod folds;
pub mod navigation;
pub mod ui;
pub mod keys;
pub mod config;
pub mod theme;
pub mod keymap;
