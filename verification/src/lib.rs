//! Verified core of the revision-suppression daemon: title normalisation,
//! source-list parsing, health convergence rules and the report formats.

pub mod text;
pub mod titles;
pub mod processed;
pub mod time;
pub mod metrics;
pub mod recentchange;
pub mod auth;
pub mod order;
pub mod cli;
pub mod state;
pub mod catchup;
pub mod warnings;
pub mod config;
pub mod scheduler;
pub mod reconcile;
pub mod mw_api;
pub mod daemon_backlog;
pub mod commands;
pub mod locks;
pub mod cache;
pub mod health;
pub mod runtime;
pub mod realtime;
pub mod recovery;
pub mod outcomes;
pub mod passes;
pub mod panel;
pub mod memory;
pub mod catchup_run;
pub mod dispatch;
pub mod startup;
pub mod background;
