//! Weather Station: the rules behind a command-line weather lookup.
//!
//! Readings arrive as fixed-point integers in thousandths of their metric
//! unit. Converted amounts are kept in millionths of the display unit, a
//! scale at which every conversion factor is exact.

pub mod api;
pub mod classify;
pub mod decimal;
pub mod display;
pub mod menu;
pub mod models;
pub mod paint;
pub mod session;
pub mod settings;
pub mod text;
pub mod units;
