//! Tag synchronisation engine: finds the tags of a base repository that a
//! head repository does not mirror yet as `sync-<tag>` branches, and drives
//! the steps that bring each of them over.
//!
//! A run has two stages. Detection ([`diff`]) compares the tags of the
//! base repository with the branches of the head repository and lists the
//! new tags; the list is handed over as text ([`handoff`]).
//! Synchronisation gets the local clone ([`cache`]) and takes each new tag
//! through fetch, checkout, patch, push and post-sync command
//! ([`workflow`]).
//!
//! The library decides; it does not act. It reads no environment, no file
//! and no network. What has to be done to the outside world is named as
//! an action, and what came of it is taken as a report.

pub mod action;
pub mod cache;
pub mod config;
pub mod context;
pub mod credentials;
pub mod diff;
pub mod error;
pub mod filter;
pub mod handoff;
pub mod model;
pub mod naming;
pub mod pages;
pub mod stage;
pub mod text;
pub mod workflow;
