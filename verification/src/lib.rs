//! Keeps a generated aggregation ("workspace-hack") package synchronized with
//! the real dependency graph of a multi-package workspace.
//!
//! The core of the crate is a reconciliation protocol: from a snapshot of the
//! workspace and a requested intent it computes a [`plan::Plan`] of atomic
//! operations, runs a confirmation state machine over it (dry-run,
//! auto-confirm or interactive), and maps every outcome to a small fixed
//! vocabulary of exit statuses.
//!
//! What decides the *contents* of the aggregation package (dependency-graph
//! construction and feature unification), the on-disk manifest format, and
//! all terminal interaction are external collaborators; this crate holds the
//! decision logic between them.

pub mod commands;
pub mod controller;
pub mod graph;
pub mod locate;
pub mod manifest;
pub mod outcome;
pub mod plan;
