//! The core of a configurable on-screen action launcher: colour parsing,
//! configuration validation, icon theming, keyboard focus navigation and
//! the choice of what a confirmed selection does.

pub mod color;
pub mod config;
pub mod dispatch;
pub mod icon;
pub mod navigation;
pub mod text;
pub mod theme;
