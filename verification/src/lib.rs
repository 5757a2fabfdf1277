//! Verified core of a small Windows utility that adds a short, controlled CPU
//! disturbance while VRChat starts: configuration and presets, the startup
//! outcome heuristic, locale selection, worker planning, process selection,
//! autostart verification verdicts and the supervisor's decisions.

pub mod outside;
pub mod config;
pub mod text;
pub mod i18n;
pub mod heuristic;
pub mod lifecycle;
pub mod logging;
pub mod disturbance;
pub mod monitor;
pub mod platform;
pub mod autostart;
pub mod supervisor;
pub mod tray;
