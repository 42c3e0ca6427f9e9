//! Dashboard core for a terminal monitor of cloud virtual machines: the
//! instance records, the filter, the dashboard state with its key handling,
//! and the decisions of the refresh and event cycle.

pub mod app;
pub mod auth;
pub mod cloud;
pub mod config;
pub mod display;
pub mod error;
pub mod instance;
pub mod logging;
pub mod provider;
pub mod record;
pub mod text;
pub mod theorems;
pub mod ui;
