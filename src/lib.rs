//! Service and journal browsing: parsing of `systemctl` / `journalctl`
//! listings, assembly of per-severity log stores, the reorder engine and
//! the navigation state machine of the dashboard.
pub mod adapter;
pub mod app;
pub mod config;
pub mod error;
pub mod input_handler;
pub mod journal;
pub mod search;
pub mod styles;
pub mod system;
pub mod text;
pub mod ui;
pub mod util;
