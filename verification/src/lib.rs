//! The offline-first core of a desktop time clock.
//!
//! The user clocks in and out against a remote service. While the service is out of reach
//! the actions are queued, the local clock state runs ahead, and a background cycle replays
//! the queue once the service answers again; whatever the service then reports overwrites
//! the local state.
//!
//! The library decides and never sends. A caller takes a request or a next step from it as
//! plain data, does the work, and reports how it went:
//!
//! - `offline`: the queue of pending actions and its rules;
//! - `sync`: the cycle that replays the queue;
//! - `commands`: clock in, clock out and break, with the fallback to the queue;
//! - `clock`: the requests to the remote service and the reading of its replies;
//! - `state`, `settings`: what the activities share;
//! - `idle`: the watch for periods without input;
//! - `auth`: signing in through the browser, and signing out;
//! - `tray`: what the tray icon shows;
//! - `instant`, `text`: dates and texts;
//! - `queue_laws`, `sync_laws`: what holds over whole histories.

pub mod auth;
pub mod clock;
pub mod commands;
pub mod idle;
pub mod instant;
pub mod offline;
pub mod queue_laws;
pub mod settings;
pub mod state;
pub mod sync;
pub mod sync_laws;
pub mod text;
pub mod tray;
