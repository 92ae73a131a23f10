//! Horizon: the core of a desktop browser shell.
//!
//! The tab and navigation-history bookkeeping lives in [`ui::tabs`]; the other
//! modules hold the browser's configuration, storage and extension records.
pub mod engine;
pub mod error;
pub mod extensions;
pub mod networking;
pub mod sandbox;
pub mod storage;
pub mod text;
pub mod ui;
