//! The tab and session engine of a small desktop browser shell: the registry
//! of tabs and their render surfaces, the event dispatcher that drives it, the
//! documents and scripts pushed to the surfaces, and the session and history
//! records that are persisted.

pub mod adblock;
pub mod chrome;
pub mod message;
pub mod mirror;
pub mod pages;
pub mod registry;
pub mod shell;
pub mod storage;
pub mod tab;
pub mod text;
pub mod updater;
pub mod url;
