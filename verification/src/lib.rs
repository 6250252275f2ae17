//! Translations that a poller refreshes and a presentation layer reads.
//!
//! A poller reads the rows of a database at a fixed pace and publishes them,
//! batch by batch, into a store that files the latest record under each asset
//! name. The presentation layer looks the menu's text up in that store on
//! every frame. Store, lock discipline and the poller's decisions live here;
//! the database, the clock and the screen belong to the program around it.
//!
//! - [`record`]: one translation of one asset.
//! - [`store`]: the store, what publishing means, and the laws of publishing.
//! - [`shared`]: the store behind a lock that nobody waits for.
//! - [`poller`]: what a poll cycle does, and when the next one starts.
//! - [`presentation`]: the text that the menu shows.

pub mod poller;
pub mod presentation;
pub mod record;
pub mod shared;
pub mod store;
mod table;
