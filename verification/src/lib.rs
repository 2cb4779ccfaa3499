//! Core logic of an interactive terminal client for browsing a source-hosting
//! account's repositories, CI artifacts, and CI cache storage.
//!
//! This crate holds the verified application core: the domain data model, the
//! view-state machine with its navigation and multi-select invariants, the
//! input-dispatch decisions, the pure render-model computations, and the
//! storage-usage aggregation rules. Terminal I/O, HTTP transport, and
//! credential storage are outside collaborators; they drive this core through
//! plain values.

use vstd::prelude::*;

pub mod artifacts;
pub mod cli;
pub mod config;
pub mod dispatch;
pub mod domain;
pub mod laws;
pub mod menu;
pub mod render;
pub mod repos;
pub mod sequences;
pub mod state;
pub mod storage;
pub mod text;
pub mod time;

