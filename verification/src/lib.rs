//! A WebDriver intermediary node for Tauri applications.
//!
//! Requests of WebDriver clients go to the native driver ([`request`]) or to the
//! plugin inside an application ([`plugin`]), whatever else is served at the
//! same time ([`history`]).

pub mod args;
pub mod capabilities;
pub mod command;
pub mod history;
pub mod json;
pub mod plugin;
pub mod readiness;
pub mod request;
pub mod server;
pub mod text;
pub mod webdriver;
pub mod webdriver_macos;
pub mod wire;
